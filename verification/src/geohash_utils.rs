//! Validation and normalization of geohash strings.
//!
//! A geohash names a rectangular geographic cell with a short string over a
//! 32-character alphabet (the digits and the lowercase letters except `a`,
//! `i`, `l` and `o`). The relay routes messages to exact cells only, so the
//! only operations needed here are syntactic validation, normalization to
//! lowercase, strict (decodable) validation, and extraction of candidate
//! geohashes from a message's tags.

use vstd::prelude::*;

verus! {

/// Maximum accepted geohash precision: 7 characters is roughly a 152 m cell.
pub const MAX_GEOHASH_LENGTH: usize = 7;

/// A lowercase character of the geohash alphabet: a digit, or a lowercase
/// letter other than `a`, `i`, `l` and `o`.
pub open spec fn is_lower_geohash_char(c: char) -> bool {
    ('0' <= c && c <= '9') || ('b' <= c && c <= 'z' && c != 'i' && c != 'l' && c != 'o')
}

/// ASCII case folding of a single character: uppercase ASCII letters map to
/// their lowercase form, every other character is unchanged.
pub open spec fn fold_char(c: char) -> char {
    if 'A' <= c && c <= 'Z' {
        ((c as u8) + 32) as char
    } else {
        c
    }
}

/// A character of the geohash alphabet, accepted in either case.
pub open spec fn is_geohash_char(c: char) -> bool {
    is_lower_geohash_char(fold_char(c))
}

/// A syntactically valid geohash: non-empty, within the precision bound, and
/// made of alphabet characters only (case-insensitively).
pub open spec fn valid_geohash(s: Seq<char>) -> bool {
    &&& 1 <= s.len()
    &&& s.len() <= MAX_GEOHASH_LENGTH as int
    &&& forall|i: int| 0 <= i < s.len() ==> is_geohash_char(#[trigger] s[i])
}

/// A strictly valid geohash: a valid geohash already in its lowercase form.
/// These are exactly the strings, within the precision bound, that the
/// geohash decoder turns into a geographic coordinate and bounding box.
pub open spec fn strict_valid_geohash(s: Seq<char>) -> bool {
    &&& 1 <= s.len()
    &&& s.len() <= MAX_GEOHASH_LENGTH as int
    &&& forall|i: int| 0 <= i < s.len() ==> is_lower_geohash_char(#[trigger] s[i])
}

/// The lowercase form of a string: every character case-folded.
pub open spec fn fold_seq(s: Seq<char>) -> Seq<char> {
    s.map_values(|c: char| fold_char(c))
}

fn is_geohash_char_exec(c: char) -> (r: bool)
    ensures
        r == is_geohash_char(c),
{
    let f: char = if c >= 'A' && c <= 'Z' {
        ((c as u8) + 32) as char
    } else {
        c
    };
    (f >= '0' && f <= '9') || (f >= 'b' && f <= 'z' && f != 'i' && f != 'l' && f != 'o')
}

/// True iff `gh` is a syntactically valid geohash: between 1 and 7 characters,
/// all from the geohash alphabet, in either case.
pub fn is_valid_geohash(gh: &str) -> (r: bool)
    ensures
        r == valid_geohash(gh@),
{
    let n = gh.unicode_len();
    if n == 0 || n > MAX_GEOHASH_LENGTH {
        return false;
    }
    let mut i: usize = 0;
    while i < n
        invariant
            i <= n,
            n == gh@.len(),
            1 <= n <= MAX_GEOHASH_LENGTH,
            forall|j: int| 0 <= j < i ==> is_geohash_char(#[trigger] gh@[j]),
        decreases n - i,
    {
        if !is_geohash_char_exec(gh.get_char(i)) {
            return false;
        }
        i += 1;
    }
    true
}

/// Normalizes a geohash to its lowercase form; `None` iff `gh` is invalid.
pub fn normalize_geohash(gh: &str) -> (r: Option<String>)
    ensures
        r is Some <==> valid_geohash(gh@),
        r matches Some(t) ==> t@ == fold_seq(gh@),
{
    if !is_valid_geohash(gh) {
        return None;
    }
    let n = gh.unicode_len();
    let mut out = String::new();
    let mut i: usize = 0;
    while i < n
        invariant
            i <= n,
            n == gh@.len(),
            out@.len() == i,
            forall|j: int| 0 <= j < i ==> out@[j] == fold_char(#[trigger] gh@[j]),
        decreases n - i,
    {
        let c = gh.get_char(i);
        let f: char = if c >= 'A' && c <= 'Z' {
            ((c as u8) + 32) as char
        } else {
            c
        };
        assert(f == fold_char(gh@[i as int]));
        out.push(f);
        i += 1;
    }
    proof {
        assert(out@ =~= fold_seq(gh@));
    }
    Some(out)
}

/// Relies on `geohash::decode`: it returns `Ok` exactly when every character
/// of the input is drawn from the lowercase geohash alphabet (its decoder
/// table maps every other byte, uppercase included, to an invalid marker),
/// provided the input is non-empty and within the 12-character limit it
/// enforces.
#[verifier::external_body]
fn geohash_decode_ok(gh: &str) -> (r: bool)
    requires
        1 <= gh@.len() <= MAX_GEOHASH_LENGTH as int,
    ensures
        r == forall|i: int| 0 <= i < gh@.len() ==> is_lower_geohash_char(#[trigger] gh@[i]),
{
    geohash::decode(gh).is_ok()
}

/// Strict validation: syntactic validity plus decodability of the string by
/// the geohash algorithm, which accepts only the lowercase alphabet.
pub fn is_valid_geohash_strict(gh: &str) -> (r: bool)
    ensures
        r == strict_valid_geohash(gh@),
{
    if !is_valid_geohash(gh) {
        proof {
            lemma_strict_implies_valid(gh@);
        }
        return false;
    }
    geohash_decode_ok(gh)
}

/// True iff a subdomain label names a geographic tenant partition, i.e. is a
/// strictly valid geohash; other labels are ordinary tenant names.
pub fn is_geohash_subdomain(subdomain: &str) -> (r: bool)
    ensures
        r == strict_valid_geohash(subdomain@),
{
    is_valid_geohash_strict(subdomain)
}

/// A tag whose first field is the reserved location marker `"g"` and which
/// has a second field carrying the candidate geohash.
pub open spec fn is_location_tag(tag: Seq<Seq<char>>) -> bool {
    tag.len() >= 2 && tag[0] == "g"@
}

/// The normalized geohashes of a tag list, in declaration order: one entry
/// per tag that is a location tag whose second field is a valid geohash.
/// Malformed location tags contribute nothing.
pub open spec fn extracted_geohashes(tags: Seq<Seq<Seq<char>>>) -> Seq<Seq<char>>
    decreases tags.len(),
{
    if tags.len() == 0 {
        Seq::empty()
    } else {
        let rest = extracted_geohashes(tags.drop_last());
        let tag = tags.last();
        if is_location_tag(tag) && valid_geohash(tag[1]) {
            rest.push(fold_seq(tag[1]))
        } else {
            rest
        }
    }
}

/// Extracts the normalized geohashes declared by a message's tags, in order,
/// silently skipping tags that are not location tags or do not carry a valid
/// geohash.
pub fn extract_geohash_tags(tags: &Vec<Vec<String>>) -> (r: Vec<String>)
    ensures
        r.deep_view() == extracted_geohashes(tags.deep_view()),
{
    let marker = String::from_str("g");
    let mut out: Vec<String> = Vec::new();
    let mut i: usize = 0;
    while i < tags.len()
        invariant
            i <= tags@.len(),
            marker@ == "g"@,
            out.deep_view() == extracted_geohashes(tags.deep_view().take(i as int)),
        decreases tags@.len() - i,
    {
        let ghost prefix = tags.deep_view().take(i as int);
        let ghost prefix1 = tags.deep_view().take(i + 1);
        proof {
            assert(prefix1.drop_last() =~= prefix);
            assert(prefix1.last() =~= tags.deep_view()[i as int]);
        }
        let tag = &tags[i];
        let ghost out_before = out.deep_view();
        if tag.len() >= 2 && tag[0] == marker {
            assert(is_location_tag(tags.deep_view()[i as int]));
            match normalize_geohash(tag[1].as_str()) {
                Some(n) => {
                    proof {
                        assert(tags.deep_view()[i as int][1] == tag@[1]@);
                    }
                    out.push(n);
                    proof {
                        assert(out.deep_view() =~= out_before.push(
                            fold_seq(tags.deep_view()[i as int][1]),
                        ));
                    }
                },
                None => {
                    assert(!valid_geohash(tags.deep_view()[i as int][1]));
                },
            }
        } else {
            assert(!is_location_tag(tags.deep_view()[i as int]));
        }
        i += 1;
    }
    proof {
        assert(tags.deep_view().take(tags@.len() as int) =~= tags.deep_view());
    }
    out
}

/// A strictly valid geohash is in particular a valid one.
pub proof fn lemma_strict_implies_valid(s: Seq<char>)
    ensures
        strict_valid_geohash(s) ==> valid_geohash(s),
{
}

/// No string of length zero, or of length above the precision bound, is a
/// valid geohash.
pub proof fn lemma_invalid_length(s: Seq<char>)
    requires
        s.len() == 0 || s.len() > MAX_GEOHASH_LENGTH as int,
    ensures
        !valid_geohash(s),
{
}

/// Every non-empty string within the precision bound whose characters are
/// all drawn from the alphabet, in either case, is a valid geohash; by the
/// contract of `normalize_geohash` its normal form is the lowercase form.
pub proof fn lemma_valid_any_case(s: Seq<char>)
    requires
        1 <= s.len(),
        s.len() <= MAX_GEOHASH_LENGTH as int,
        forall|i: int| 0 <= i < s.len() ==> is_geohash_char(#[trigger] s[i]),
    ensures
        valid_geohash(s),
{
}

/// Case folding is idempotent, so normalization is: the lowercase form of a
/// valid geohash is itself valid and is its own lowercase form.
pub proof fn lemma_normalize_idempotent(s: Seq<char>)
    requires
        valid_geohash(s),
    ensures
        valid_geohash(fold_seq(s)),
        fold_seq(fold_seq(s)) == fold_seq(s),
{
    assert forall|i: int| 0 <= i < fold_seq(s).len() implies is_geohash_char(
        #[trigger] fold_seq(s)[i],
    ) by {
        assert(fold_seq(s)[i] == fold_char(s[i]));
    }
    assert(fold_seq(fold_seq(s)) =~= fold_seq(s));
}

/// Everything `extracted_geohashes` yields is a valid geohash in normal
/// (lowercase) form.
pub proof fn lemma_extracted_geohashes_normalized(tags: Seq<Seq<Seq<char>>>)
    ensures
        forall|i: int| 0 <= i < extracted_geohashes(tags).len() ==> valid_geohash(
            #[trigger] extracted_geohashes(tags)[i],
        ) && fold_seq(extracted_geohashes(tags)[i]) == extracted_geohashes(tags)[i],
    decreases tags.len(),
{
    if tags.len() > 0 {
        lemma_extracted_geohashes_normalized(tags.drop_last());
        let rest = extracted_geohashes(tags.drop_last());
        let tag = tags.last();
        if is_location_tag(tag) && valid_geohash(tag[1]) {
            lemma_normalize_idempotent(tag[1]);
            let ex = extracted_geohashes(tags);
            assert(ex == rest.push(fold_seq(tag[1])));
            assert forall|i: int| 0 <= i < ex.len() implies valid_geohash(#[trigger] ex[i])
                && fold_seq(ex[i]) == ex[i] by {
                if i < rest.len() {
                    assert(ex[i] == rest[i]);
                } else {
                    assert(ex[i] == fold_seq(tag[1]));
                }
            }
        } else {
            assert(extracted_geohashes(tags) == rest);
        }
    }
}

} // verus!
