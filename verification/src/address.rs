//! In-place substitution of one physical device address by another inside a
//! packet buffer.
//!
//! The buffer is scanned from the left, one six-byte window at a time. A
//! window that equals the address searched for is overwritten on the spot,
//! and the scan goes on over the buffer as it then stands.
use vstd::prelude::*;

verus! {

/// A physical device address: six raw bytes.
pub type Address = [u8; 6];

/// The six bytes of `buf` that start at `at` are those of `addr`.
pub open spec fn window_is(buf: Seq<u8>, at: int, addr: Seq<u8>) -> bool {
    &&& 0 <= at
    &&& at + 6 <= buf.len()
    &&& buf[at] == addr[0]
    &&& buf[at + 1] == addr[1]
    &&& buf[at + 2] == addr[2]
    &&& buf[at + 3] == addr[3]
    &&& buf[at + 4] == addr[4]
    &&& buf[at + 5] == addr[5]
}

/// `buf` with the six bytes that start at `at` replaced by `addr`.
pub open spec fn overwrite(buf: Seq<u8>, at: int, addr: Seq<u8>) -> Seq<u8> {
    Seq::new(
        buf.len(),
        |j: int|
            if at <= j < at + 6 {
                addr[j - at]
            } else {
                buf[j]
            },
    )
}

/// One step of the scan: the window at `at` is overwritten if it holds `find`.
pub open spec fn rewrite_at(buf: Seq<u8>, find: Seq<u8>, replace: Seq<u8>, at: int) -> Seq<u8> {
    if window_is(buf, at, find) {
        overwrite(buf, at, replace)
    } else {
        buf
    }
}

/// The scan over the windows that start at `at` or later.
pub open spec fn rewrite_from(buf: Seq<u8>, find: Seq<u8>, replace: Seq<u8>, at: int) -> Seq<u8>
    decreases buf.len() - at,
{
    if at < 0 || at + 6 > buf.len() {
        buf
    } else {
        rewrite_from(rewrite_at(buf, find, replace, at), find, replace, at + 1)
    }
}

/// The buffer after the whole scan.
pub open spec fn rewritten(buf: Seq<u8>, find: Seq<u8>, replace: Seq<u8>) -> Seq<u8> {
    rewrite_from(buf, find, replace, 0)
}

/// Some window of `buf` holds `addr`.
pub open spec fn has_match(buf: Seq<u8>, addr: Seq<u8>) -> bool {
    exists|at: int| window_is(buf, at, addr)
}

/// The first byte of `find` does not occur in `replace` past its first
/// byte. Then no window that begins inside a substituted address can hold
/// `find`: a substitution never completes a new occurrence to its right.
pub open spec fn no_false_start(find: Seq<u8>, replace: Seq<u8>) -> bool {
    forall|k: int| 1 <= k < 6 ==> find[0] != #[trigger] replace[k]
}

/// No window that begins in the five bytes before `m` holds `find`, among
/// the windows at `from` or later.
pub open spec fn clear_before(buf: Seq<u8>, find: Seq<u8>, from: int, m: int) -> bool {
    forall|p: int| from <= p && m - 6 < p < m ==> !window_is(buf, p, find)
}

/// Replaces the address `find` by `replace` in `buf`, scanning every six-byte
/// window from the left. A buffer of fewer than six bytes is left as it is.
pub fn replace_mac(buf: &mut Vec<u8>, find: &Address, replace: &Address)
    ensures
        final(buf)@ == rewritten(old(buf)@, find@, replace@),
        final(buf)@.len() == old(buf)@.len(),
{
    let ghost start = buf@;
    let n: usize = buf.len();
    proof {
        lemma_rewrite_keeps_len(start, find@, replace@, 0);
    }
    if n < 6 {
        return ;
    }
    let mut i: usize = 0;
    while i <= n - 6
        invariant
            n >= 6,
            buf@.len() == n,
            i <= n - 5,
            rewritten(start, find@, replace@) == rewrite_from(buf@, find@, replace@, i as int),
        decreases n - i,
    {
        if buf[i] == find[0] && buf[i + 1] == find[1] && buf[i + 2] == find[2] && buf[i + 3]
            == find[3] && buf[i + 4] == find[4] && buf[i + 5] == find[5] {
            let ghost before = buf@;
            buf.set(i, replace[0]);
            buf.set(i + 1, replace[1]);
            buf.set(i + 2, replace[2]);
            buf.set(i + 3, replace[3]);
            buf.set(i + 4, replace[4]);
            buf.set(i + 5, replace[5]);
            assert(buf@ =~= overwrite(before, i as int, replace@));
        }
        i += 1;
    }
}

/// The scan never changes the length of the buffer.
pub proof fn lemma_rewrite_keeps_len(buf: Seq<u8>, find: Seq<u8>, replace: Seq<u8>, at: int)
    ensures
        rewrite_from(buf, find, replace, at).len() == buf.len(),
    decreases buf.len() - at,
{
    if !(at < 0 || at + 6 > buf.len()) {
        lemma_rewrite_keeps_len(rewrite_at(buf, find, replace, at), find, replace, at + 1);
    }
}

/// A buffer shorter than one address comes back unchanged.
pub proof fn law_short_buffer_unchanged(buf: Seq<u8>, find: Seq<u8>, replace: Seq<u8>)
    requires
        buf.len() < 6,
    ensures
        rewritten(buf, find, replace) == buf,
{
}

/// Where no window at `at` or later holds `find`, the rest of the scan
/// changes nothing.
pub proof fn lemma_no_match_from(buf: Seq<u8>, find: Seq<u8>, replace: Seq<u8>, at: int)
    requires
        forall|p: int| at <= p ==> !window_is(buf, p, find),
    ensures
        rewrite_from(buf, find, replace, at) == buf,
    decreases buf.len() - at,
{
    if !(at < 0 || at + 6 > buf.len()) {
        lemma_no_match_from(buf, find, replace, at + 1);
    }
}

/// A buffer in which `find` does not occur comes back unchanged.
pub proof fn law_no_match_unchanged(buf: Seq<u8>, find: Seq<u8>, replace: Seq<u8>)
    requires
        !has_match(buf, find),
    ensures
        rewritten(buf, find, replace) == buf,
{
    lemma_no_match_from(buf, find, replace, 0);
}

/// Substituting an address by itself changes nothing, from any window on.
pub proof fn lemma_same_address_from(buf: Seq<u8>, addr: Seq<u8>, at: int)
    ensures
        rewrite_from(buf, addr, addr, at) == buf,
    decreases buf.len() - at,
{
    if !(at < 0 || at + 6 > buf.len()) {
        assert(rewrite_at(buf, addr, addr, at) =~= buf);
        lemma_same_address_from(buf, addr, at + 1);
    }
}

/// Substituting an address by itself changes nothing.
pub proof fn law_same_address_unchanged(buf: Seq<u8>, addr: Seq<u8>)
    ensures
        rewritten(buf, addr, addr) == buf,
{
    lemma_same_address_from(buf, addr, 0);
}

/// Where the two addresses are equal, or `find` does not occur in the buffer,
/// a second application gives what the first one gave.
pub proof fn law_idempotent_without_effect(buf: Seq<u8>, find: Seq<u8>, replace: Seq<u8>)
    requires
        find == replace || !has_match(buf, find),
    ensures
        rewritten(rewritten(buf, find, replace), find, replace) == rewritten(buf, find, replace),
{
    if find == replace {
        law_same_address_unchanged(buf, find);
    } else {
        law_no_match_unchanged(buf, find, replace);
    }
}

/// Each byte of a window that holds `addr` is the byte of `addr` at the same
/// offset.
pub proof fn lemma_window_byte(buf: Seq<u8>, at: int, addr: Seq<u8>, k: int)
    requires
        window_is(buf, at, addr),
        0 <= k < 6,
    ensures
        buf[at + k] == addr[k],
{
    if k == 0 {
    } else if k == 1 {
    } else if k == 2 {
    } else if k == 3 {
    } else if k == 4 {
    }
}

/// A window that holds `replace` and lies left of the scan keeps it to the
/// end, where no substitution makes a false start.
pub proof fn lemma_replaced_window_stays(
    buf: Seq<u8>,
    find: Seq<u8>,
    replace: Seq<u8>,
    at: int,
    m: int,
)
    requires
        no_false_start(find, replace),
        m < at,
        window_is(buf, m, replace),
    ensures
        window_is(rewrite_from(buf, find, replace, at), m, replace),
    decreases buf.len() - at,
{
    if !(at < 0 || at + 6 > buf.len()) {
        let next = rewrite_at(buf, find, replace, at);
        if window_is(buf, at, find) {
            if at < m + 6 {
                lemma_window_byte(buf, m, replace, at - m);
                assert(find[0] == replace[at - m]);
            }
        }
        assert(window_is(next, m, replace));
        lemma_replaced_window_stays(next, find, replace, at + 1, m);
    }
}

/// A window that holds `find` when the scan has not passed it, with no
/// other such window that begins in the five bytes before it, holds
/// `replace` at the end, where no substitution makes a false start.
pub proof fn lemma_match_is_replaced(
    buf: Seq<u8>,
    find: Seq<u8>,
    replace: Seq<u8>,
    at: int,
    m: int,
)
    requires
        no_false_start(find, replace),
        0 <= at <= m,
        window_is(buf, m, find),
        clear_before(buf, find, at, m),
    ensures
        window_is(rewrite_from(buf, find, replace, at), m, replace),
    decreases buf.len() - at,
{
    let next = rewrite_at(buf, find, replace, at);
    if at == m {
        assert(window_is(next, m, replace));
        lemma_replaced_window_stays(next, find, replace, at + 1, m);
    } else {
        assert(window_is(next, m, find));
        assert forall|p: int| at + 1 <= p && m - 6 < p < m implies !window_is(next, p, find) by {
            if window_is(buf, at, find) {
                if p < at + 6 {
                    assert(next[p] == replace[p - at]);
                } else {
                    assert(window_is(next, p, find) == window_is(buf, p, find));
                }
            }
        }
        lemma_match_is_replaced(next, find, replace, at + 1, m);
    }
}

/// Every window of the buffer that holds `find`, with no other such window
/// that begins in the five bytes before it, holds `replace` afterwards,
/// where no substitution makes a false start.
pub proof fn law_every_match_replaced(buf: Seq<u8>, find: Seq<u8>, replace: Seq<u8>, m: int)
    requires
        no_false_start(find, replace),
        window_is(buf, m, find),
        clear_before(buf, find, 0, m),
    ensures
        window_is(rewritten(buf, find, replace), m, replace),
{
    lemma_match_is_replaced(buf, find, replace, 0, m);
}

/// A byte that no window holding `find` covers, among the windows that the
/// scan has not passed, is the same at the end, where no substitution makes a
/// false start.
pub proof fn lemma_uncovered_byte_stays(
    buf: Seq<u8>,
    find: Seq<u8>,
    replace: Seq<u8>,
    at: int,
    q: int,
)
    requires
        no_false_start(find, replace),
        0 <= q < buf.len(),
        forall|p: int| at <= p && q - 6 < p <= q ==> !window_is(buf, p, find),
    ensures
        rewrite_from(buf, find, replace, at).len() == buf.len(),
        rewrite_from(buf, find, replace, at)[q] == buf[q],
    decreases buf.len() - at,
{
    lemma_rewrite_keeps_len(buf, find, replace, at);
    if !(at < 0 || at + 6 > buf.len()) {
        let next = rewrite_at(buf, find, replace, at);
        assert(next[q] == buf[q]);
        assert forall|p: int| at + 1 <= p && q - 6 < p <= q implies !window_is(next, p, find) by {
            if window_is(buf, at, find) {
                if p < at + 6 {
                    if p + 6 <= next.len() {
                        assert(next[p] == replace[p - at]);
                    }
                } else {
                    assert(window_is(next, p, find) == window_is(buf, p, find));
                }
            }
        }
        lemma_uncovered_byte_stays(next, find, replace, at + 1, q);
    }
}

/// A byte that lies in no window holding `find` is unchanged, where no
/// substitution makes a false start.
pub proof fn law_other_bytes_unchanged(buf: Seq<u8>, find: Seq<u8>, replace: Seq<u8>, q: int)
    requires
        no_false_start(find, replace),
        0 <= q < buf.len(),
        forall|p: int| q - 6 < p <= q ==> !window_is(buf, p, find),
    ensures
        rewritten(buf, find, replace).len() == buf.len(),
        rewritten(buf, find, replace)[q] == buf[q],
{
    lemma_uncovered_byte_stays(buf, find, replace, 0, q);
}

} // verus!
