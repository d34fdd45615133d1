//! Facts read from deployed daemon configuration text: the access point's
//! interface (`interface=<name>` in the hostapd file) and the DHCP subnet's
//! netmask and gateway (`subnet <addr> netmask <mask> { ... option routers
//! <gateway>; ... }` in the dhcpd file).
use vstd::prelude::*;
use vstd::slice::{slice_subrange, slice_to_vec};
use crate::text::{find_byte, find_from, has_prefix, is_ws, is_ws_byte, starts_with, trim, trim_bounds, NEWLINE};

verus! {

/// `interface=`
pub open spec fn interface_key() -> Seq<u8> {
    seq![105u8, 110, 116, 101, 114, 102, 97, 99, 101, 61]
}

/// Whether a line of `t` starts at `p`.
pub open spec fn is_line_start(t: Seq<u8>, p: int) -> bool {
    p == 0 || (0 < p <= t.len() && t[p - 1] == NEWLINE)
}

/// The first line at or after `p` that starts with `interface=`.
pub open spec fn find_interface(t: Seq<u8>, p: int) -> Option<int>
    decreases t.len() - p,
{
    if p < 0 || p >= t.len() {
        None
    } else if is_line_start(t, p) && has_prefix(t.subrange(p, t.len() as int), interface_key()) {
        Some(p)
    } else {
        find_interface(t, p + 1)
    }
}

/// The value of the `interface=` line at `p`: the rest of that line, trimmed.
pub open spec fn interface_value(t: Seq<u8>, p: int) -> Seq<u8> {
    let s = p + interface_key().len();
    trim(t.subrange(s, find_from(t, NEWLINE, s)))
}

/// The interface named by the first `interface=` line of `t`.
pub open spec fn spec_interface(t: Seq<u8>) -> Option<Seq<u8>> {
    match find_interface(t, 0) {
        None => None,
        Some(p) => Some(interface_value(t, p)),
    }
}

fn interface_key_bytes() -> (r: Vec<u8>)
    ensures
        r@ == interface_key(),
{
    let r: Vec<u8> = vec![105u8, 110, 116, 101, 114, 102, 97, 99, 101, 61];
    assert(r@ =~= interface_key());
    r
}

/// The interface named by the first line of `text` that starts with
/// `interface=`: the rest of that line without surrounding whitespace.
pub fn hostapd_interface(text: &[u8]) -> (r: Option<Vec<u8>>)
    ensures
        match (r, spec_interface(text@)) {
            (None, None) => true,
            (Some(v), Some(w)) => v@ == w,
            _ => false,
        },
{
    let key = interface_key_bytes();
    let len = text.len();
    let mut p: usize = 0;
    while p < len
        invariant
            len == text@.len(),
            key@ == interface_key(),
            p <= len,
            find_interface(text@, 0) == find_interface(text@, p as int),
        decreases len - p,
    {
        let at_line_start = p == 0 || text[p - 1] == NEWLINE;
        if at_line_start && starts_with(slice_subrange(text, p, len), key.as_slice()) {
            let start = p + key.len();
            let end = find_byte(text, NEWLINE, start);
            let (lo, hi) = trim_bounds(slice_subrange(text, start, end));
            let value = slice_to_vec(slice_subrange(slice_subrange(text, start, end), lo, hi));
            return Some(value);
        }
        p = p + 1;
    }
    None
}

/// `subnet`
pub open spec fn word_subnet() -> Seq<u8> {
    seq![115u8, 117, 98, 110, 101, 116]
}

/// `netmask`
pub open spec fn word_netmask() -> Seq<u8> {
    seq![110u8, 101, 116, 109, 97, 115, 107]
}

/// `option`
pub open spec fn word_option() -> Seq<u8> {
    seq![111u8, 112, 116, 105, 111, 110]
}

/// `routers`
pub open spec fn word_routers() -> Seq<u8> {
    seq![114u8, 111, 117, 116, 101, 114, 115]
}

/// `{`
pub open spec fn word_open() -> Seq<u8> {
    seq![123u8]
}

/// `}`
pub open spec fn word_close() -> Seq<u8> {
    seq![125u8]
}

/// The whitespace-separated words of `t` from position `i` on, where `cur`
/// is the part of a word already read.
pub open spec fn words_from(t: Seq<u8>, i: int, cur: Seq<u8>) -> Seq<Seq<u8>>
    decreases t.len() - i,
{
    let done = if cur.len() > 0 { seq![cur] } else { Seq::empty() };
    if i < 0 || i >= t.len() {
        done
    } else if is_ws(t[i]) {
        done + words_from(t, i + 1, Seq::empty())
    } else {
        words_from(t, i + 1, cur.push(t[i]))
    }
}

/// The whitespace-separated words of `t`.
pub open spec fn words(t: Seq<u8>) -> Seq<Seq<u8>> {
    words_from(t, 0, Seq::empty())
}

/// Whether `subnet <addr> netmask <mask> {` starts at word `i`.
pub open spec fn subnet_at(ws: Seq<Seq<u8>>, i: int) -> bool {
    0 <= i && i + 4 < ws.len() && ws[i] == word_subnet() && ws[i + 2] == word_netmask()
        && ws[i + 4] == word_open()
}

/// Whether `option routers <gateway>` starts at word `j`.
pub open spec fn routers_at(ws: Seq<Seq<u8>>, j: int) -> bool {
    0 <= j && j + 2 < ws.len() && ws[j] == word_option() && ws[j + 1] == word_routers()
}

/// The first word at or after `i` that opens a subnet block.
pub open spec fn find_subnet(ws: Seq<Seq<u8>>, i: int) -> Option<int>
    decreases ws.len() - i,
{
    if i < 0 || i >= ws.len() {
        None
    } else if subnet_at(ws, i) {
        Some(i)
    } else {
        find_subnet(ws, i + 1)
    }
}

/// The first `option routers` at or after word `j` before the block closes.
pub open spec fn find_routers(ws: Seq<Seq<u8>>, j: int) -> Option<int>
    decreases ws.len() - j,
{
    if j < 0 || j >= ws.len() || ws[j] == word_close() {
        None
    } else if routers_at(ws, j) {
        Some(j)
    } else {
        find_routers(ws, j + 1)
    }
}

/// `w` without one trailing `;`.
pub open spec fn strip_semicolon(w: Seq<u8>) -> Seq<u8> {
    if w.len() > 0 && w.last() == 59u8 {
        w.drop_last()
    } else {
        w
    }
}

/// The netmask and gateway of the first subnet block of `t`, when that block
/// names its routers.
pub open spec fn spec_subnet(t: Seq<u8>) -> Option<(Seq<u8>, Seq<u8>)> {
    let ws = words(t);
    match find_subnet(ws, 0) {
        None => None,
        Some(i) => match find_routers(ws, i + 5) {
            None => None,
            Some(j) => Some((ws[i + 3], strip_semicolon(ws[j + 2]))),
        },
    }
}

/// The views of a list of words.
pub open spec fn words_view(ws: Seq<Vec<u8>>) -> Seq<Seq<u8>> {
    ws.map_values(|w: Vec<u8>| w@)
}

/// Splits `text` into its whitespace-separated words.
pub fn split_words(text: &[u8]) -> (r: Vec<Vec<u8>>)
    ensures
        words_view(r@) == words(text@),
{
    let mut out: Vec<Vec<u8>> = Vec::new();
    let mut cur: Vec<u8> = Vec::new();
    let mut i: usize = 0;
    assert(words_view(out@) =~= Seq::<Seq<u8>>::empty());
    while i < text.len()
        invariant
            i <= text@.len(),
            words_view(out@) + words_from(text@, i as int, cur@) == words(text@),
        decreases text@.len() - i,
    {
        let b = text[i];
        if is_ws_byte(b) {
            if cur.len() > 0 {
                let ghost before = out@;
                let word = cur;
                out.push(word);
                cur = Vec::new();
                assert(words_view(out@) =~= words_view(before) + seq![word@]);
                assert(words_view(out@) + words_from(text@, i + 1, cur@)
                    =~= words_view(before) + (seq![word@] + words_from(text@, i + 1, cur@)));
            } else {
                assert(words_view(out@) + words_from(text@, i as int, cur@)
                    =~= words_view(out@) + (Seq::<Seq<u8>>::empty() + words_from(text@, i + 1, Seq::empty())));
                assert(cur@ =~= Seq::<u8>::empty());
            }
        } else {
            cur.push(b);
        }
        i = i + 1;
    }
    if cur.len() > 0 {
        let ghost before = out@;
        out.push(cur);
        assert(words_view(out@) =~= words_view(before) + words_from(text@, i as int, cur@));
    } else {
        assert(words_view(out@) + words_from(text@, i as int, cur@) =~= words_view(out@));
    }
    out
}

/// Whether two byte strings are equal.
pub fn bytes_eq(a: &[u8], b: &[u8]) -> (r: bool)
    ensures
        r == (a@ == b@),
{
    if a.len() != b.len() {
        return false;
    }
    let mut i: usize = 0;
    while i < a.len()
        invariant
            a@.len() == b@.len(),
            i <= a@.len(),
            forall|j: int| 0 <= j < i ==> a@[j] == b@[j],
        decreases a@.len() - i,
    {
        if a[i] != b[i] {
            return false;
        }
        i = i + 1;
    }
    assert(a@ =~= b@);
    true
}

fn word_bytes_subnet() -> (r: Vec<u8>)
    ensures
        r@ == word_subnet(),
{
    let r: Vec<u8> = vec![115u8, 117, 98, 110, 101, 116];
    assert(r@ =~= word_subnet());
    r
}

pub(crate) fn word_bytes_netmask() -> (r: Vec<u8>)
    ensures
        r@ == word_netmask(),
{
    let r: Vec<u8> = vec![110u8, 101, 116, 109, 97, 115, 107];
    assert(r@ =~= word_netmask());
    r
}

fn word_bytes_option() -> (r: Vec<u8>)
    ensures
        r@ == word_option(),
{
    let r: Vec<u8> = vec![111u8, 112, 116, 105, 111, 110];
    assert(r@ =~= word_option());
    r
}

fn word_bytes_routers() -> (r: Vec<u8>)
    ensures
        r@ == word_routers(),
{
    let r: Vec<u8> = vec![114u8, 111, 117, 116, 101, 114, 115];
    assert(r@ =~= word_routers());
    r
}

fn word_bytes_open() -> (r: Vec<u8>)
    ensures
        r@ == word_open(),
{
    let r: Vec<u8> = vec![123u8];
    assert(r@ =~= word_open());
    r
}

fn word_bytes_close() -> (r: Vec<u8>)
    ensures
        r@ == word_close(),
{
    let r: Vec<u8> = vec![125u8];
    assert(r@ =~= word_close());
    r
}

/// The netmask and gateway of the first `subnet <addr> netmask <mask> {`
/// block of `text`: the mask is the word after `netmask`, the gateway the
/// word after the block's first `option routers`, without a trailing `;`.
/// `None` when there is no such block, or when it closes before naming its
/// routers.
pub fn dhcpd_subnet(text: &[u8]) -> (r: Option<(Vec<u8>, Vec<u8>)>)
    ensures
        match (r, spec_subnet(text@)) {
            (None, None) => true,
            (Some((m, g)), Some((sm, sg))) => m@ == sm && g@ == sg,
            _ => false,
        },
{
    let ws = split_words(text);
    let ghost wv = words_view(ws@);
    let i = match subnet_index(&ws) {
        None => {
            return None;
        },
        Some(i) => i,
    };
    let j = match routers_index(&ws, i + 5) {
        None => {
            return None;
        },
        Some(j) => j,
    };
    assert(wv[i + 3] == ws@[i + 3]@);
    assert(wv[j + 2] == ws@[j + 2]@);
    let mask = copy_word(&ws[i + 3]);
    let gw = &ws[j + 2];
    let gateway = if gw.len() > 0 && gw[gw.len() - 1] == 59u8 {
        let g = slice_to_vec(slice_subrange(gw.as_slice(), 0, gw.len() - 1));
        assert(g@ =~= strip_semicolon(wv[j + 2]));
        g
    } else {
        copy_word(gw)
    };
    Some((mask, gateway))
}

/// The first word that opens a subnet block.
fn subnet_index(ws: &Vec<Vec<u8>>) -> (r: Option<usize>)
    ensures
        match (r, find_subnet(words_view(ws@), 0)) {
            (None, None) => true,
            (Some(i), Some(k)) => i == k && subnet_at(words_view(ws@), k),
            _ => false,
        },
{
    let ghost wv = words_view(ws@);
    let subnet = word_bytes_subnet();
    let netmask = word_bytes_netmask();
    let open = word_bytes_open();
    let n = ws.len();
    let mut i: usize = 0;
    while i < n
        invariant
            n == ws@.len(),
            wv == words_view(ws@),
            wv.len() == n,
            forall|k: int| 0 <= k < n ==> #[trigger] wv[k] == ws@[k]@,
            subnet@ == word_subnet(),
            netmask@ == word_netmask(),
            open@ == word_open(),
            i <= n,
            find_subnet(wv, 0) == find_subnet(wv, i as int),
        decreases n - i,
    {
        if n - i > 4 && bytes_eq(ws[i].as_slice(), subnet.as_slice())
            && bytes_eq(ws[i + 2].as_slice(), netmask.as_slice())
            && bytes_eq(ws[i + 4].as_slice(), open.as_slice()) {
            return Some(i);
        }
        i = i + 1;
    }
    None
}

/// The first `option routers` at or after word `from`, before the block closes.
fn routers_index(ws: &Vec<Vec<u8>>, from: usize) -> (r: Option<usize>)
    ensures
        match (r, find_routers(words_view(ws@), from as int)) {
            (None, None) => true,
            (Some(j), Some(k)) => j == k && routers_at(words_view(ws@), k),
            _ => false,
        },
{
    let ghost wv = words_view(ws@);
    let option = word_bytes_option();
    let routers = word_bytes_routers();
    let close = word_bytes_close();
    let n = ws.len();
    if from >= n {
        return None;
    }
    let mut j: usize = from;
    while j < n
        invariant
            n == ws@.len(),
            wv == words_view(ws@),
            wv.len() == n,
            forall|k: int| 0 <= k < n ==> #[trigger] wv[k] == ws@[k]@,
            option@ == word_option(),
            routers@ == word_routers(),
            close@ == word_close(),
            from <= j <= n,
            find_routers(wv, from as int) == find_routers(wv, j as int),
        decreases n - j,
    {
        if bytes_eq(ws[j].as_slice(), close.as_slice()) {
            return None;
        }
        if n - j > 2 && bytes_eq(ws[j].as_slice(), option.as_slice())
            && bytes_eq(ws[j + 1].as_slice(), routers.as_slice()) {
            return Some(j);
        }
        j = j + 1;
    }
    None
}

fn copy_word(w: &Vec<u8>) -> (r: Vec<u8>)
    ensures
        r@ == w@,
{
    slice_to_vec(w.as_slice())
}

} // verus!
