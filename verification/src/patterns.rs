//! Regular expressions, as the `regex` crate compiles and matches them.
//!
//! A pattern is handed over as text with every call. What a call gives is a
//! function of the pattern and the text alone; it is not restated here but
//! named, and the contracts of the callers speak of those names.

use vstd::prelude::*;

verus! {

/// For each match of `pattern` in `text`, from left to right and without
/// overlap, the text of capture group `group`, or `None` where the group
/// took no part in the match. `None` as a whole where `pattern` does not
/// compile.
pub uninterp spec fn regex_group_texts(pattern: Seq<char>, group: nat, text: Seq<char>) -> Option<
    Seq<Option<Seq<char>>>,
>;

/// Whether `pattern` matches somewhere in `text`. `None` where `pattern`
/// does not compile.
pub uninterp spec fn regex_matches(pattern: Seq<char>, text: Seq<char>) -> Option<bool>;

/// `text` with every match of `pattern` replaced by `replacement`. `None`
/// where `pattern` does not compile.
pub uninterp spec fn regex_replaced(
    pattern: Seq<char>,
    text: Seq<char>,
    replacement: Seq<char>,
) -> Option<Seq<char>>;

/// What the compiler says against `pattern`, if it refuses it.
pub uninterp spec fn regex_refusal(pattern: Seq<char>) -> Option<Seq<char>>;

/// The views of optional strings.
pub open spec fn opt_texts(v: Seq<Option<String>>) -> Seq<Option<Seq<char>>> {
    Seq::new(
        v.len(),
        |i: int|
            match v[i] {
                Some(s) => Some(s@),
                None => None,
            },
    )
}

/// Compiles `pattern` with `regex::Regex::new` and walks the matches in
/// `text` with `Regex::captures_iter`, taking the text of `group` from each.
/// The result is named [`regex_group_texts`].
#[verifier::external_body]
pub(crate) fn group_texts(pattern: &str, group: usize, text: &str) -> (r: Option<
    Vec<Option<String>>,
>)
    ensures
        match r {
            Some(v) => regex_group_texts(pattern@, group as nat, text@) == Some(opt_texts(v@)),
            None => regex_group_texts(pattern@, group as nat, text@) is None,
        },
{
    let re = regex::Regex::new(pattern).ok()?;
    Some(re.captures_iter(text).map(|c| c.get(group).map(|m| m.as_str().to_string())).collect())
}

/// Compiles `pattern` with `regex::Regex::new` and asks `Regex::is_match`
/// about `text`. The result is named [`regex_matches`].
#[verifier::external_body]
pub(crate) fn matches(pattern: &str, text: &str) -> (r: Option<bool>)
    ensures
        r == regex_matches(pattern@, text@),
{
    let re = regex::Regex::new(pattern).ok()?;
    Some(re.is_match(text))
}

/// Compiles `pattern` with `regex::Regex::new` and calls
/// `Regex::replace_all` on `text`. The result is named [`regex_replaced`].
#[verifier::external_body]
pub(crate) fn replaced(pattern: &str, text: &str, replacement: &str) -> (r: Option<String>)
    ensures
        match r {
            Some(s) => regex_replaced(pattern@, text@, replacement@) == Some(s@),
            None => regex_replaced(pattern@, text@, replacement@) is None,
        },
{
    let re = regex::Regex::new(pattern).ok()?;
    Some(re.replace_all(text, replacement).into_owned())
}

/// Compiles `pattern` with `regex::Regex::new` and renders the error, if
/// there is one. The result is named [`regex_refusal`].
#[verifier::external_body]
pub(crate) fn refusal(pattern: &str) -> (r: Option<String>)
    ensures
        match r {
            Some(s) => regex_refusal(pattern@) == Some(s@),
            None => regex_refusal(pattern@) is None,
        },
{
    regex::Regex::new(pattern).err().map(|e| e.to_string())
}

/// The texts that are there, in order.
pub open spec fn present(items: Seq<Option<Seq<char>>>) -> Seq<Seq<char>>
    decreases items.len(),
{
    if items.len() == 0 {
        Seq::empty()
    } else {
        let rest = present(items.drop_last());
        match items.last() {
            Some(t) => rest.push(t),
            None => rest,
        }
    }
}

/// The texts that are there, in order.
pub fn keep_present(items: Vec<Option<String>>) -> (r: Vec<String>)
    ensures
        crate::text::texts(r@) == present(opt_texts(items@)),
{
    let mut r: Vec<String> = Vec::new();
    let mut i: usize = 0;
    while i < items.len()
        invariant
            i <= items.len(),
            crate::text::texts(r@) == present(opt_texts(items@).take(i as int)),
        decreases items.len() - i,
    {
        let ghost before = crate::text::texts(r@);
        let ghost upto = opt_texts(items@).take(i + 1);
        assert(upto.drop_last() =~= opt_texts(items@).take(i as int));
        if let Some(s) = &items[i] {
            r.push(s.clone());
            assert(crate::text::texts(r@) =~= before.push(s@));
        }
        i += 1;
    }
    assert(opt_texts(items@).take(items.len() as int) =~= opt_texts(items@));
    r
}

/// The texts of `group` in the matches of `pattern` in `text`, leaving out
/// the matches in which the group took no part; none where `pattern` does
/// not compile.
pub open spec fn captured(pattern: Seq<char>, group: nat, text: Seq<char>) -> Seq<Seq<char>> {
    match regex_group_texts(pattern, group, text) {
        Some(items) => present(items),
        None => Seq::empty(),
    }
}

/// The texts of `group` in the matches of `pattern` in `text`.
pub fn captures(pattern: &str, group: usize, text: &str) -> (r: Vec<String>)
    ensures
        crate::text::texts(r@) == captured(pattern@, group as nat, text@),
{
    match group_texts(pattern, group, text) {
        Some(items) => keep_present(items),
        None => {
            let r: Vec<String> = Vec::new();
            assert(crate::text::texts(r@) =~= Seq::<Seq<char>>::empty());
            r
        },
    }
}

} // verus!
