//! Branch names derived from issues: a stable, collision-resistant mapping
//! from the issue's identifier and title to a slug-like string.

use vstd::prelude::*;

use crate::issues::Issue;
use crate::text::{chars_vec, int_rep, push_all, push_i64, string_from_chars};

verus! {

/// Lower-case ASCII letters, spaces turned into hyphens, all else kept.
pub open spec fn slug_char(c: char) -> char {
    if 65 <= c as u32 && c as u32 <= 90 {
        ((c as u32 + 32) as u8) as char
    } else if c == ' ' {
        '-'
    } else {
        c
    }
}

/// The slug of a title: every character mapped through [`slug_char`].
pub open spec fn slug(s: Seq<char>) -> Seq<char> {
    s.map_values(|c: char| slug_char(c))
}

/// The branch name an issue yields: its identifier, a hyphen, and the slug
/// of its title.
pub open spec fn branch_name_chars(issue: Issue) -> Seq<char> {
    match issue {
        Issue::Jira { key, summary } => key@ + seq!['-'] + slug(summary@),
        Issue::GitHub { number, title } => int_rep(number as int) + seq!['-'] + slug(title@),
    }
}

/// Map a title through [`slug_char`], character by character.
fn slugify(v: &Vec<char>) -> (r: Vec<char>)
    ensures
        r@ == slug(v@),
{
    let mut r: Vec<char> = Vec::new();
    let mut i: usize = 0;
    while i < v.len()
        invariant
            i <= v@.len(),
            r@ == slug(v@.take(i as int)),
        decreases v@.len() - i,
    {
        let c = v[i];
        let u: u32 = c as u32;
        let mapped: char = if 65 <= u && u <= 90 {
            ((u + 32) as u8) as char
        } else if c == ' ' {
            '-'
        } else {
            c
        };
        assert(mapped == slug_char(v@[i as int]));
        r.push(mapped);
        i += 1;
        proof {
            assert(r@ =~= slug(v@.take(i as int)));
        }
    }
    proof {
        assert(r@ =~= slug(v@));
    }
    r
}

/// Derive the branch name for an issue.
pub fn branch_name_from_issue(issue: &Issue) -> (r: String)
    ensures
        r@ == branch_name_chars(*issue),
{
    let mut out: Vec<char> = Vec::new();
    match issue {
        Issue::Jira { key, summary } => {
            let kv = chars_vec(key.as_str());
            push_all(&mut out, &kv);
            out.push('-');
            let sv = slugify(&chars_vec(summary.as_str()));
            push_all(&mut out, &sv);
        },
        Issue::GitHub { number, title } => {
            push_i64(&mut out, *number);
            out.push('-');
            let tv = slugify(&chars_vec(title.as_str()));
            push_all(&mut out, &tv);
        },
    }
    proof {
        assert(out@ =~= branch_name_chars(*issue));
    }
    string_from_chars(&out)
}

} // verus!
