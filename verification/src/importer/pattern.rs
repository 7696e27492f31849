//! Regular-expression matching, as the importer uses it.
use vstd::prelude::*;

verus! {

/// What `regex_lite` finds for `pattern` in `text`: `None` where the pattern
/// does not compile, else one entry per successive match, each listing the
/// text of every capture group (group 0, the whole match, first), with
/// `None` for a group that took no part in the match.
pub uninterp spec fn regex_captures_spec(pattern: Seq<char>, text: Seq<char>) -> Option<
    Seq<Seq<Option<Seq<char>>>>,
>;

/// The text of each group of one match.
pub open spec fn groups_view(g: Seq<Option<String>>) -> Seq<Option<Seq<char>>> {
    g.map_values(|o: Option<String>| match o {
        Some(s) => Some(s@),
        None => None,
    })
}

/// The groups of every match.
pub open spec fn captures_view(c: Seq<Vec<Option<String>>>) -> Seq<Seq<Option<Seq<char>>>> {
    c.map_values(|g: Vec<Option<String>>| groups_view(g@))
}

/// Compiles `pattern` with `regex_lite::Regex::new` and lists the groups of
/// each match that `Regex::captures_iter` yields over `text`, in order.
/// The contract claims only that the result is the one named by
/// [`regex_captures_spec`] for these two strings.
#[verifier::external_body]
pub(crate) fn regex_captures(pattern: &str, text: &str) -> (r: Option<Vec<Vec<Option<String>>>>)
    ensures
        regex_captures_spec(pattern@, text@) == match r {
            Some(c) => Some(captures_view(c@)),
            None => None,
        },
{
    match regex_lite::Regex::new(pattern) {
        Ok(re) => Some(
            re.captures_iter(text).map(
                |caps| caps.iter().map(|m| m.map(|m| m.as_str().to_string())).collect(),
            ).collect(),
        ),
        Err(_) => None,
    }
}

/// The views of an optional list of captures.
pub open spec fn opt_captures_view(c: Option<Vec<Vec<Option<String>>>>) -> Option<Seq<Seq<Option<Seq<char>>>>> {
    match c {
        Some(v) => Some(captures_view(v@)),
        None => None,
    }
}

/// The text of an optional, optional string.
pub open spec fn opt_opt_view(r: Option<Option<String>>) -> Option<Option<Seq<char>>> {
    match r {
        Some(Some(k)) => Some(Some(k@)),
        Some(None) => Some(None),
        None => None,
    }
}

/// Group 1 of the first match (what `Regex::captures` and `get(1)` give):
/// `None` where nothing matched, `Some(None)` where the group took no part.
pub open spec fn first_group_spec(c: Option<Seq<Seq<Option<Seq<char>>>>>) -> Option<Option<Seq<char>>> {
    match c {
        Some(ms) => if ms.len() == 0 {
            None
        } else if ms[0].len() > 1 {
            Some(ms[0][1])
        } else {
            Some(None)
        },
        None => None,
    }
}

/// Group 1 of the first match in `c` (see [`first_group_spec`]).
pub fn first_group(c: Option<Vec<Vec<Option<String>>>>) -> (r: Option<Option<String>>)
    ensures
        opt_opt_view(r) == first_group_spec(opt_captures_view(c)),
{
    let ghost cv = opt_captures_view(c);
    match c {
        Some(ms) => {
            if ms.len() == 0 {
                return None;
            }
            let first = &ms[0];
            proof {
                assert(cv->0[0] == groups_view(first@));
            }
            if first.len() > 1 {
                match &first[1] {
                    Some(g) => Some(Some(g.clone())),
                    None => Some(None),
                }
            } else {
                Some(None)
            }
        },
        None => None,
    }
}

} // verus!
