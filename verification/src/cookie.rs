//! Reading the dark-mode preference out of a cookie header and building the
//! `Set-Cookie` value that persists it.
//!
//! The durable store is one cookie, `darkmode=true` or `darkmode=false`. A
//! cookie header is a `;`-separated list of `name=value` pairs, each pair
//! possibly preceded by spaces. The preference is on exactly when such a
//! header carries the pair `darkmode=true`. Both the server (reading the
//! request's `Cookie` header) and the client (reading the document's cookie
//! string) go through the same function here, so the two always agree on the
//! same cookie state.

use vstd::prelude::*;
use vstd::string::StringSliceAdditionalSpecFns;

verus! {

/// The byte `;`, which separates cookie pairs.
pub const SEMICOLON: u8 = 59;

/// The byte for a space, which may pad a pair after a `;`.
pub const SPACE: u8 = 32;

/// The bytes of `darkmode=true`.
pub open spec fn dm_true() -> Seq<u8> {
    seq![100u8, 97u8, 114u8, 107u8, 109u8, 111u8, 100u8, 101u8, 61u8, 116u8, 114u8, 117u8, 101u8]
}

/// The bytes of `darkmode=false`.
pub open spec fn dm_false() -> Seq<u8> {
    seq![
        100u8,
        97u8,
        114u8,
        107u8,
        109u8,
        111u8,
        100u8,
        101u8,
        61u8,
        102u8,
        97u8,
        108u8,
        115u8,
        101u8,
    ]
}

/// The bytes of `; Path=/`, the attribute the set cookie carries.
pub open spec fn path_suffix() -> Seq<u8> {
    seq![59u8, 32u8, 80u8, 97u8, 116u8, 104u8, 61u8, 47u8]
}

/// The `name=value` pair stored for a preference: `darkmode=true` or
/// `darkmode=false`.
pub open spec fn spec_cookie_pair(prefers_dark: bool) -> Seq<u8> {
    if prefers_dark {
        dm_true()
    } else {
        dm_false()
    }
}

/// The full `Set-Cookie` value the toggle action answers with:
/// `darkmode=<true|false>; Path=/`.
pub open spec fn spec_set_cookie_value(prefers_dark: bool) -> Seq<u8> {
    spec_cookie_pair(prefers_dark) + path_suffix()
}

/// Position `i` starts a cookie pair: it is the start of the header, or
/// everything between it and the nearest `;` to its left is spaces.
pub open spec fn pair_start(s: Seq<u8>, i: int) -> bool
    decreases i,
{
    if i <= 0 {
        true
    } else {
        s[i - 1] == SEMICOLON || (s[i - 1] == SPACE && pair_start(s, i - 1))
    }
}

/// The pair `darkmode=true` stands at position `i` of the header: at a pair
/// start, and running up to the end of the header or to a `;`.
pub open spec fn cookie_match_at(s: Seq<u8>, i: int) -> bool {
    &&& 0 <= i
    &&& i + 13 <= s.len()
    &&& pair_start(s, i)
    &&& s.subrange(i, i + 13) == dm_true()
    &&& (i + 13 == s.len() || s[i + 13] == SEMICOLON)
}

/// A cookie header turns dark mode on exactly when it carries the pair
/// `darkmode=true`. Absence of the cookie, or any other value, reads as off.
pub open spec fn spec_prefers_dark(s: Seq<u8>) -> bool {
    exists|i: int| cookie_match_at(s, i)
}

/// The bytes of `darkmode=true` as an executable value.
fn darkmode_true_bytes() -> (v: Vec<u8>)
    ensures
        v@ == dm_true(),
{
    let mut v: Vec<u8> = Vec::new();
    v.push(100);
    v.push(97);
    v.push(114);
    v.push(107);
    v.push(109);
    v.push(111);
    v.push(100);
    v.push(101);
    v.push(61);
    v.push(116);
    v.push(114);
    v.push(117);
    v.push(101);
    assert(v@ =~= dm_true());
    v
}

/// The bytes of `darkmode=false` as an executable value.
fn darkmode_false_bytes() -> (v: Vec<u8>)
    ensures
        v@ == dm_false(),
{
    let mut v: Vec<u8> = Vec::new();
    v.push(100);
    v.push(97);
    v.push(114);
    v.push(107);
    v.push(109);
    v.push(111);
    v.push(100);
    v.push(101);
    v.push(61);
    v.push(102);
    v.push(97);
    v.push(108);
    v.push(115);
    v.push(101);
    assert(v@ =~= dm_false());
    v
}

/// Whether `pat` occurs in `s` starting at position `i`.
fn has_bytes_at(s: &[u8], i: usize, pat: &[u8]) -> (r: bool)
    requires
        i <= s@.len(),
    ensures
        r == (i + pat@.len() <= s@.len()
            && s@.subrange(i as int, i as int + pat@.len() as int) == pat@),
{
    if pat.len() > s.len() - i {
        return false;
    }
    let mut j: usize = 0;
    while j < pat.len()
        invariant
            s@.len() <= usize::MAX,
            i + pat@.len() <= s@.len(),
            j <= pat@.len(),
            forall|k: int| 0 <= k < j ==> s@[i + k] == pat@[k],
        decreases pat@.len() - j,
    {
        if s[i + j] != pat[j] {
            assert(s@.subrange(i as int, i as int + pat@.len() as int)[j as int] != pat@[j as int]);
            return false;
        }
        j += 1;
    }
    assert(s@.subrange(i as int, i as int + pat@.len() as int) =~= pat@);
    true
}

/// Reads the initial preference out of a cookie header (or a document cookie
/// string) given as bytes: on exactly when it carries the pair
/// `darkmode=true`. Absence of the cookie, or any other value, yields
/// `false`.
pub fn read_initial_preference(cookie: &[u8]) -> (r: bool)
    ensures
        r == spec_prefers_dark(cookie@),
{
    let pat = darkmode_true_bytes();
    let n = cookie.len();
    let mut i: usize = 0;
    let mut start: bool = true;
    while i < n
        invariant
            n == cookie@.len(),
            i <= n,
            pat@ == dm_true(),
            start == pair_start(cookie@, i as int),
            forall|j: int| 0 <= j < i ==> !cookie_match_at(cookie@, j),
        decreases n - i,
    {
        if start && has_bytes_at(cookie, i, pat.as_slice()) {
            if i + 13 == n || cookie[i + 13] == SEMICOLON {
                assert(cookie_match_at(cookie@, i as int));
                return true;
            }
        }
        assert(!cookie_match_at(cookie@, i as int));
        let c = cookie[i];
        start = c == SEMICOLON || (c == SPACE && start);
        i += 1;
    }
    proof {
        assert forall|j: int| !cookie_match_at(cookie@, j) by {
            if 0 <= j && j + 13 <= cookie@.len() {
                assert(j < n);
            }
        };
    }
    false
}

/// Reads the initial preference out of a cookie header given as text, as the
/// client-side variant sees the document's cookie string.
pub fn read_initial_preference_str(cookie: &str) -> (r: bool)
    ensures
        r == spec_prefers_dark(cookie.spec_bytes()),
{
    read_initial_preference(cookie.as_bytes())
}

/// Builds the `name=value` pair a cookie jar holds for this preference.
pub fn cookie_pair_value(prefers_dark: bool) -> (v: Vec<u8>)
    ensures
        v@ == spec_cookie_pair(prefers_dark),
{
    if prefers_dark {
        darkmode_true_bytes()
    } else {
        darkmode_false_bytes()
    }
}

/// Builds the `Set-Cookie` value for a preference: `darkmode=<true|false>; Path=/`.
pub fn set_cookie_value(prefers_dark: bool) -> (v: Vec<u8>)
    ensures
        v@ == spec_set_cookie_value(prefers_dark),
{
    let mut v = cookie_pair_value(prefers_dark);
    v.push(59);
    v.push(32);
    v.push(80);
    v.push(97);
    v.push(116);
    v.push(104);
    v.push(61);
    v.push(47);
    assert(v@ =~= spec_set_cookie_value(prefers_dark));
    v
}

/// The position of the first `;` in `s` at or after `i`, or the length of
/// `s` when there is none.
pub open spec fn first_semi_from(s: Seq<u8>, i: int) -> int
    decreases s.len() - i,
{
    if i >= s.len() {
        i
    } else if s[i] == SEMICOLON {
        i
    } else {
        first_semi_from(s, i + 1)
    }
}

/// What a jar holding no other cookie stores when a `Set-Cookie` value is
/// applied to it: the `name=value` pair before the attributes, that is,
/// everything before the first `;` (or the whole value when there is none).
pub open spec fn spec_applied_pair(s: Seq<u8>) -> Seq<u8> {
    s.subrange(0, first_semi_from(s, 0))
}

/// Scanning on from `j` instead of `i` finds the same first `;` when no `;`
/// stands in between.
proof fn lemma_first_semi_skip(s: Seq<u8>, i: int, j: int)
    requires
        0 <= i <= j <= s.len(),
        forall|k: int| i <= k < j ==> s[k] != SEMICOLON,
    ensures
        first_semi_from(s, i) == first_semi_from(s, j),
    decreases j - i,
{
    if i < j {
        assert(s[i] != SEMICOLON);
        lemma_first_semi_skip(s, i + 1, j);
    }
}

/// Applies a `Set-Cookie` value to a jar that holds no other cookie: the jar
/// then stores the `name=value` pair before the first `;`.
pub fn apply_set_cookie(set_cookie: &[u8]) -> (v: Vec<u8>)
    ensures
        v@ == spec_applied_pair(set_cookie@),
{
    let n = set_cookie.len();
    let mut i: usize = 0;
    while i < n && set_cookie[i] != SEMICOLON
        invariant
            n == set_cookie@.len(),
            i <= n,
            first_semi_from(set_cookie@, 0) == first_semi_from(set_cookie@, i as int),
        decreases n - i,
    {
        i += 1;
    }
    let mut v: Vec<u8> = Vec::new();
    let mut j: usize = 0;
    while j < i
        invariant
            i <= set_cookie@.len(),
            j <= i,
            v@ == set_cookie@.subrange(0, j as int),
        decreases i - j,
    {
        v.push(set_cookie[j]);
        assert(v@ =~= set_cookie@.subrange(0, j + 1));
        j += 1;
    }
    v
}

/// Applying the `Set-Cookie` value built for `prefers_dark` stores exactly
/// the pair `darkmode=<true|false>`: the attributes are cut off, and nothing
/// else is kept.
pub proof fn lemma_applied_pair_of_set_cookie(prefers_dark: bool)
    ensures
        spec_applied_pair(spec_set_cookie_value(prefers_dark)) == spec_cookie_pair(prefers_dark),
{
    let s = spec_set_cookie_value(prefers_dark);
    let pair = spec_cookie_pair(prefers_dark);
    let len = pair.len() as int;
    assert forall|k: int| 0 <= k < len implies s[k] != SEMICOLON by {
        assert(s[k] == pair[k]);
    }
    assert(s[len] == SEMICOLON);
    lemma_first_semi_skip(s, 0, len);
    assert(spec_applied_pair(s) =~= pair);
}

/// Round trip: a jar whose darkmode entry was just set for `prefers_dark`
/// reads back as exactly `prefers_dark`.
pub proof fn lemma_cookie_round_trip(prefers_dark: bool)
    ensures
        spec_prefers_dark(spec_cookie_pair(prefers_dark)) == prefers_dark,
{
    if prefers_dark {
        let s = dm_true();
        assert(s.subrange(0, 13) =~= s);
        assert(cookie_match_at(s, 0));
    } else {
        let s = dm_false();
        assert forall|i: int| !cookie_match_at(s, i) by {
            if 0 <= i && i + 13 <= s.len() {
                if i == 0 {
                    assert(s.subrange(0, 13)[9] == 102u8);
                    assert(dm_true()[9] == 116u8);
                } else {
                    assert(i == 1);
                    assert(s[0] == 100u8);
                    assert(!pair_start(s, 1));
                }
            }
        };
    }
}

/// Full round trip: the jar left behind by applying the toggle's `Set-Cookie`
/// value for `prefers_dark` reads back as exactly `prefers_dark`.
pub proof fn lemma_set_cookie_round_trip(prefers_dark: bool)
    ensures
        spec_prefers_dark(spec_applied_pair(spec_set_cookie_value(prefers_dark))) == prefers_dark,
{
    lemma_applied_pair_of_set_cookie(prefers_dark);
    lemma_cookie_round_trip(prefers_dark);
}

/// An empty cookie header — no cookie at all — reads as light mode.
pub proof fn lemma_absent_reads_false()
    ensures
        !spec_prefers_dark(Seq::<u8>::empty()),
{
    assert forall|i: int| !cookie_match_at(Seq::<u8>::empty(), i) by {};
}

} // verus!
