//! Semantic versions and the bump algorithm: parsing and rendering of
//! `major.minor.patch[-prerelease]` strings, and the exact increment, reset
//! and prerelease semantics of each bump rule, with the pre-stable special
//! case for `0.x` versions.

use vstd::prelude::*;
use vstd::string::*;

use crate::error::{ErrorView, StepError};
use crate::text::{
    all_digits, chars_vec, dec_rep, dec_val, digit_char, find_char, find_idx, is_digit,
    lemma_find_idx, parse_decimal, push_u64, string_from_chars, sub_vec,
};

verus! {

/// A parsed semantic version. The prerelease is empty when absent.
#[derive(Debug, PartialEq, Eq)]
pub struct Version {
    pub major: u64,
    pub minor: u64,
    pub patch: u64,
    pub pre: String,
}

/// The mathematical shape of a [`Version`].
#[verifier::ext_equal]
pub struct VersionView {
    pub major: u64,
    pub minor: u64,
    pub patch: u64,
    pub pre: Seq<char>,
}

impl View for Version {
    type V = VersionView;

    open spec fn view(&self) -> VersionView {
        VersionView { major: self.major, minor: self.minor, patch: self.patch, pre: self.pre@ }
    }
}

/// A character allowed inside a prerelease identifier.
pub open spec fn ident_char(c: char) -> bool {
    is_digit(c) || (65 <= c as u32 && c as u32 <= 90) || (97 <= c as u32 && c as u32 <= 122) || c
        == '-'
}

/// A single prerelease identifier: non-empty, alphanumerics and hyphens, and
/// no leading zero when purely numeric.
pub open spec fn valid_pre_ident(s: Seq<char>) -> bool {
    &&& s.len() > 0
    &&& forall|i: int| 0 <= i < s.len() ==> ident_char(s[i])
    &&& (all_digits(s) && s[0] == '0' ==> s.len() == 1)
}

/// A valid prerelease: one or more dot-separated identifiers.
pub open spec fn valid_pre_chars(s: Seq<char>) -> bool
    decreases s.len(),
{
    let i = find_idx(s, '.');
    if i < 0 || i >= s.len() {
        valid_pre_ident(s)
    } else {
        valid_pre_ident(s.take(i)) && valid_pre_chars(s.skip(i + 1))
    }
}

impl VersionView {
    /// A version is well formed when its prerelease is absent or valid.
    pub open spec fn wf(self) -> bool {
        self.pre.len() == 0 || valid_pre_chars(self.pre)
    }
}

/// A numeric version component: digits with no leading zero, within `u64`.
pub open spec fn valid_num(s: Seq<char>) -> bool {
    &&& s.len() > 0
    &&& all_digits(s)
    &&& (s[0] == '0' ==> s.len() == 1)
    &&& dec_val(s) <= u64::MAX
}

/// The three dot-separated numeric components of a version core, when the
/// core has exactly that shape.
pub open spec fn parsed_core(core: Seq<char>) -> Option<(u64, u64, u64)> {
    let i = find_idx(core, '.');
    if i < 0 {
        None
    } else {
        let a = core.take(i);
        let rest = core.skip(i + 1);
        let j = find_idx(rest, '.');
        if j < 0 {
            None
        } else {
            let b = rest.take(j);
            let c = rest.skip(j + 1);
            if find_idx(c, '.') >= 0 {
                None
            } else if valid_num(a) && valid_num(b) && valid_num(c) {
                Some((dec_val(a) as u64, dec_val(b) as u64, dec_val(c) as u64))
            } else {
                None
            }
        }
    }
}

/// The version a string denotes: the part before the first `-` must be a
/// three-component core, and anything after it a valid prerelease.
pub open spec fn parsed_version(s: Seq<char>) -> Option<VersionView> {
    let d = find_idx(s, '-');
    let core = if d < 0 {
        s
    } else {
        s.take(d)
    };
    let pre = if d < 0 {
        Seq::<char>::empty()
    } else {
        s.skip(d + 1)
    };
    match parsed_core(core) {
        None => None,
        Some((major, minor, patch)) => if d < 0 || valid_pre_chars(pre) {
            Some(VersionView { major, minor, patch, pre })
        } else {
            None
        },
    }
}

/// The canonical text of a version.
pub open spec fn version_chars(v: VersionView) -> Seq<char> {
    dec_rep(v.major as nat) + seq!['.'] + dec_rep(v.minor as nat) + seq!['.'] + dec_rep(
        v.patch as nat,
    ) + if v.pre.len() == 0 {
        Seq::<char>::empty()
    } else {
        seq!['-'] + v.pre
    }
}

impl Version {
    /// A version with the given numeric components and no prerelease.
    pub fn new(major: u64, minor: u64, patch: u64) -> (v: Version)
        ensures
            v@ == (VersionView { major, minor, patch, pre: Seq::<char>::empty() }),
            v@.wf(),
    {
        Version { major, minor, patch, pre: String::new() }
    }

    /// Parse a version string; `None` exactly when it is not a valid version.
    pub fn parse(s: &str) -> (r: Option<Version>)
        ensures
            match r {
                Some(v) => parsed_version(s@) == Some(v@) && v@.wf(),
                None => parsed_version(s@) is None,
            },
    {
        let cs = chars_vec(s);
        let n = cs.len();
        let (core, pre, has_pre) = match find_char(&cs, '-') {
            None => (sub_vec(&cs, 0, n), Vec::<char>::new(), false),
            Some(d) => {
                proof {
                    lemma_find_idx(cs@, '-');
                }
                (sub_vec(&cs, 0, d), sub_vec(&cs, d + 1, n), true)
            },
        };
        proof {
            assert(cs@.subrange(0, cs@.len() as int) =~= cs@);
        }
        let nums = parse_core(&core);
        match nums {
            None => None,
            Some((major, minor, patch)) => {
                if has_pre && !is_valid_pre(&pre) {
                    None
                } else {
                    let v = Version { major, minor, patch, pre: string_from_chars(&pre) };
                    proof {
                        if !has_pre {
                            assert(pre@ =~= Seq::<char>::empty());
                        }
                    }
                    Some(v)
                }
            },
        }
    }

    /// Render this version as its canonical text.
    pub fn render(&self) -> (r: String)
        ensures
            r@ == version_chars(self@),
    {
        let mut out: Vec<char> = Vec::new();
        push_u64(&mut out, self.major);
        out.push('.');
        push_u64(&mut out, self.minor);
        out.push('.');
        push_u64(&mut out, self.patch);
        let pre = chars_vec(self.pre.as_str());
        if pre.len() > 0 {
            out.push('-');
            crate::text::push_all(&mut out, &pre);
        }
        proof {
            assert(out@ =~= version_chars(self@));
        }
        string_from_chars(&out)
    }
}

/// Parse a three-component version core.
fn parse_core(core: &Vec<char>) -> (r: Option<(u64, u64, u64)>)
    ensures
        r == parsed_core(core@),
{
    let n = core.len();
    let i = match find_char(core, '.') {
        None => {
            return None;
        },
        Some(i) => i,
    };
    proof {
        lemma_find_idx(core@, '.');
    }
    let a = sub_vec(core, 0, i);
    let rest = sub_vec(core, i + 1, n);
    let j = match find_char(&rest, '.') {
        None => {
            return None;
        },
        Some(j) => j,
    };
    proof {
        lemma_find_idx(rest@, '.');
    }
    let m = rest.len();
    let b = sub_vec(&rest, 0, j);
    let c = sub_vec(&rest, j + 1, m);
    if find_char(&c, '.').is_some() {
        return None;
    }
    let major = match parse_num(&a) {
        None => {
            return None;
        },
        Some(n) => n,
    };
    let minor = match parse_num(&b) {
        None => {
            return None;
        },
        Some(n) => n,
    };
    let patch = match parse_num(&c) {
        None => {
            return None;
        },
        Some(n) => n,
    };
    Some((major, minor, patch))
}

/// Parse a numeric component, enforcing the no-leading-zero rule.
fn parse_num(v: &Vec<char>) -> (r: Option<u64>)
    ensures
        match r {
            Some(n) => valid_num(v@) && n == dec_val(v@),
            None => !valid_num(v@),
        },
{
    if v.len() > 1 && v[0] == '0' {
        return None;
    }
    match parse_decimal(v) {
        None => None,
        Some(n) => Some(n),
    }
}

/// Check a whole string for prerelease validity.
pub fn is_valid_pre(v: &Vec<char>) -> (b: bool)
    ensures
        b == valid_pre_chars(v@),
    decreases v@.len(),
{
    match find_char(v, '.') {
        None => is_valid_ident(v),
        Some(i) => {
            proof {
                lemma_find_idx(v@, '.');
            }
            let n = v.len();
            let head = sub_vec(v, 0, i);
            let tail = sub_vec(v, i + 1, n);
            if is_valid_ident(&head) {
                is_valid_pre(&tail)
            } else {
                false
            }
        },
    }
}

/// Check a single prerelease identifier.
fn is_valid_ident(v: &Vec<char>) -> (b: bool)
    ensures
        b == valid_pre_ident(v@),
{
    if v.len() == 0 {
        return false;
    }
    let mut i: usize = 0;
    let mut digits_only = true;
    while i < v.len()
        invariant
            0 < v@.len(),
            i <= v@.len(),
            forall|j: int| 0 <= j < i ==> ident_char(v@[j]),
            digits_only == all_digits(v@.take(i as int)),
        decreases v@.len() - i,
    {
        let c = v[i];
        let u: u32 = c as u32;
        let is_d = 48 <= u && u <= 57;
        let ok = is_d || (65 <= u && u <= 90) || (97 <= u && u <= 122) || c == '-';
        if !ok {
            assert(!ident_char(v@[i as int]));
            return false;
        }
        proof {
            let t1 = v@.take(i + 1);
            let t0 = v@.take(i as int);
            assert(t1.drop_last() =~= t0);
            assert(t1.last() == v@[i as int]);
            if all_digits(t0) && is_digit(v@[i as int]) {
                assert forall|j: int| 0 <= j < t1.len() implies is_digit(t1[j]) by {
                    if j < i {
                        assert(t1[j] == t0[j]);
                    }
                }
            }
            if all_digits(t1) {
                assert forall|j: int| 0 <= j < t0.len() implies is_digit(t0[j]) by {
                    assert(t0[j] == t1[j]);
                }
                assert(is_digit(t1[i as int]));
            }
        }
        digits_only = digits_only && is_d;
        i += 1;
    }
    proof {
        assert(v@.take(i as int) =~= v@);
    }
    if digits_only {
        if v[0] == '0' { v.len() == 1 } else { true }
    } else {
        true
    }
}

/// The rules that can be derived from conventional commits.
#[derive(Clone, Copy, Debug, PartialEq, Eq, Structural)]
pub enum ConventionalRule {
    Major,
    Minor,
    Patch,
}

impl Default for ConventionalRule {
    /// The mildest increment is the default fallback.
    fn default() -> (r: Self)
        ensures
            r == ConventionalRule::Patch,
    {
        ConventionalRule::Patch
    }
}

/// A version-bump instruction.
#[derive(Clone, Debug, PartialEq, Eq)]
pub enum Rule {
    Major,
    Minor,
    Patch,
    Pre { label: String, fallback_rule: ConventionalRule },
    Release,
}

/// The mathematical shape of a [`Rule`].
pub enum RuleView {
    Major,
    Minor,
    Patch,
    Pre { label: Seq<char>, fallback_rule: ConventionalRule },
    Release,
}

impl View for Rule {
    type V = RuleView;

    open spec fn view(&self) -> RuleView {
        match self {
            Rule::Major => RuleView::Major,
            Rule::Minor => RuleView::Minor,
            Rule::Patch => RuleView::Patch,
            Rule::Pre { label, fallback_rule } => RuleView::Pre {
                label: label@,
                fallback_rule: *fallback_rule,
            },
            Rule::Release => RuleView::Release,
        }
    }
}

impl From<ConventionalRule> for Rule {
    fn from(fallback_rule: ConventionalRule) -> (r: Rule) {
        match fallback_rule {
            ConventionalRule::Major => Rule::Major,
            ConventionalRule::Minor => Rule::Minor,
            ConventionalRule::Patch => Rule::Patch,
        }
    }
}

impl vstd::std_specs::convert::FromSpecImpl<ConventionalRule> for Rule {
    open spec fn obeys_from_spec() -> bool {
        true
    }

    open spec fn from_spec(t: ConventionalRule) -> Rule {
        match t {
            ConventionalRule::Major => Rule::Major,
            ConventionalRule::Minor => Rule::Minor,
            ConventionalRule::Patch => Rule::Patch,
        }
    }
}

/// The numeric effect of a Major, Minor or Patch request, with the `0.x`
/// demotion applied and the prerelease cleared.
pub open spec fn numeric_effect(v: VersionView, rule: ConventionalRule) -> Result<
    VersionView,
    ErrorView,
> {
    match rule {
        ConventionalRule::Major => if v.major != 0 {
            if v.major == u64::MAX {
                Err(ErrorView::VersionComponentOverflow)
            } else {
                Ok(
                    VersionView {
                        major: (v.major + 1) as u64,
                        minor: 0,
                        patch: 0,
                        pre: Seq::<char>::empty(),
                    },
                )
            }
        } else {
            numeric_minor(v)
        },
        ConventionalRule::Minor => if v.major != 0 {
            numeric_minor(v)
        } else {
            numeric_patch(v)
        },
        ConventionalRule::Patch => numeric_patch(v),
    }
}

pub open spec fn numeric_minor(v: VersionView) -> Result<VersionView, ErrorView> {
    if v.minor == u64::MAX {
        Err(ErrorView::VersionComponentOverflow)
    } else {
        Ok(
            VersionView {
                major: v.major,
                minor: (v.minor + 1) as u64,
                patch: 0,
                pre: Seq::<char>::empty(),
            },
        )
    }
}

pub open spec fn numeric_patch(v: VersionView) -> Result<VersionView, ErrorView> {
    if v.patch == u64::MAX {
        Err(ErrorView::VersionComponentOverflow)
    } else {
        Ok(
            VersionView {
                major: v.major,
                minor: v.minor,
                patch: (v.patch + 1) as u64,
                pre: Seq::<char>::empty(),
            },
        )
    }
}

/// The prerelease rule: bump the fallback first when no prerelease exists,
/// otherwise increment or reset the `label.N` counter.
pub open spec fn spec_bump_pre(v: VersionView, label: Seq<char>, fallback: ConventionalRule) -> Result<
    VersionView,
    ErrorView,
> {
    if v.pre.len() == 0 {
        match numeric_effect(v, fallback) {
            Err(e) => Err(e),
            Ok(b) => {
                let p = label + seq!['.', '0'];
                if valid_pre_chars(p) {
                    Ok(VersionView { pre: p, ..b })
                } else {
                    Err(ErrorView::InvalidPrereleaseLabel { label })
                }
            },
        }
    } else {
        let i = find_idx(v.pre, '.');
        if i < 0 {
            Err(ErrorView::PrereleaseNotIncrementable)
        } else {
            let head = v.pre.take(i);
            let tail = v.pre.skip(i + 1);
            if find_idx(tail, '.') >= 0 {
                Err(ErrorView::PrereleaseNotIncrementable)
            } else if head != label {
                let p = label + seq!['.', '0'];
                if valid_pre_chars(p) {
                    Ok(VersionView { pre: p, ..v })
                } else {
                    Err(ErrorView::InvalidPrereleaseLabel { label })
                }
            } else if tail.len() > 0 && all_digits(tail) && dec_val(tail) <= 65535 {
                Ok(VersionView { pre: label + seq!['.'] + dec_rep((dec_val(tail) + 1) as nat), ..v })
            } else {
                Err(ErrorView::InvalidPrereleaseSuffix)
            }
        }
    }
}

/// What each bump rule yields, in the exact precedence of the rule table.
pub open spec fn spec_bump(v: VersionView, rule: RuleView) -> Result<VersionView, ErrorView> {
    match rule {
        RuleView::Major => numeric_effect(v, ConventionalRule::Major),
        RuleView::Minor => numeric_effect(v, ConventionalRule::Minor),
        RuleView::Patch => numeric_effect(v, ConventionalRule::Patch),
        RuleView::Release => Ok(VersionView { pre: Seq::<char>::empty(), ..v }),
        RuleView::Pre { label, fallback_rule } => spec_bump_pre(v, label, fallback_rule),
    }
}

/// The view of a bump outcome.
pub open spec fn bumped_view(r: Result<Version, StepError>) -> Result<VersionView, ErrorView> {
    match r {
        Ok(v) => Ok(v@),
        Err(e) => Err(e@),
    }
}

/// The decimal representation of any value is a valid prerelease identifier.
proof fn lemma_dec_rep_ident(n: nat)
    ensures
        valid_pre_ident(dec_rep(n)),
        all_digits(dec_rep(n)),
        n > 0 ==> dec_rep(n)[0] != '0',
    decreases n,
{
    assert('0' as u32 == 48);
    if n < 10 {
        assert(dec_rep(n) =~= seq![digit_char(n as int)]);
        assert(digit_char(n as int) as u32 == 48 + n);
        assert(is_digit(digit_char(n as int)));
        if n > 0 {
            assert(digit_char(n as int) != '0');
        }
    } else {
        lemma_dec_rep_ident(n / 10);
        let r = dec_rep(n);
        let h = dec_rep(n / 10);
        assert(r =~= h.push(digit_char((n % 10) as int)));
        assert(digit_char((n % 10) as int) as u32 == 48 + n % 10);
        assert(is_digit(digit_char((n % 10) as int)));
        assert(forall|i: int| 0 <= i < r.len() ==> is_digit(#[trigger] r[i]));
        assert(r[0] == h[0]);
        assert(n / 10 >= 1);
        assert(h[0] != '0');
    }
}

proof fn lemma_find_idx_is(s: Seq<char>, c: char, k: int)
    requires
        0 <= k < s.len(),
        s[k] == c,
        forall|j: int| 0 <= j < k ==> s[j] != c,
    ensures
        find_idx(s, c) == k,
{
    lemma_find_idx(s, c);
}

proof fn lemma_find_idx_none(s: Seq<char>, c: char)
    requires
        forall|j: int| 0 <= j < s.len() ==> s[j] != c,
    ensures
        find_idx(s, c) == -1,
{
    lemma_find_idx(s, c);
}

/// Two dot-free identifiers joined by a dot form a valid prerelease.
proof fn lemma_valid_pre_pair(a: Seq<char>, b: Seq<char>)
    requires
        valid_pre_ident(a),
        valid_pre_ident(b),
    ensures
        valid_pre_chars(a + seq!['.'] + b),
{
    let s = a + seq!['.'] + b;
    assert('.' as u32 == 46);
    assert(!ident_char('.'));
    assert forall|j: int| 0 <= j < a.len() implies s[j] != '.' by {
        assert(s[j] == a[j]);
        assert(ident_char(a[j]));
    }
    assert(s[a.len() as int] == '.');
    lemma_find_idx_is(s, '.', a.len() as int);
    assert(s.take(a.len() as int) =~= a);
    assert(s.skip(a.len() as int + 1) =~= b);
    assert forall|j: int| 0 <= j < b.len() implies b[j] != '.' by {
        assert(ident_char(b[j]));
    }
    lemma_find_idx_none(b, '.');
    assert(valid_pre_chars(b));
    assert(valid_pre_chars(s));
}

/// Apply a Major, Minor or Patch effect, demoting on `0.x` versions.
fn bump_numeric(version: Version, rule: ConventionalRule) -> (r: Result<Version, StepError>)
    ensures
        bumped_view(r) == numeric_effect(version@, rule),
        r matches Ok(v) ==> v@.pre.len() == 0,
{
    let go_major = rule == ConventionalRule::Major && version.major != 0;
    let go_minor = !go_major && (rule == ConventionalRule::Major || (rule == ConventionalRule::Minor
        && version.major != 0));
    if go_major {
        if version.major == u64::MAX {
            Err(StepError::VersionComponentOverflow)
        } else {
            Ok(Version { major: version.major + 1, minor: 0, patch: 0, pre: String::new() })
        }
    } else if go_minor {
        if version.minor == u64::MAX {
            Err(StepError::VersionComponentOverflow)
        } else {
            Ok(
                Version {
                    major: version.major,
                    minor: version.minor + 1,
                    patch: 0,
                    pre: String::new(),
                },
            )
        }
    } else {
        if version.patch == u64::MAX {
            Err(StepError::VersionComponentOverflow)
        } else {
            Ok(
                Version {
                    major: version.major,
                    minor: version.minor,
                    patch: version.patch + 1,
                    pre: String::new(),
                },
            )
        }
    }
}

/// Build the `label.0` prerelease for a fresh or reset label.
fn reset_prerelease(label: &String) -> (r: Result<String, StepError>)
    ensures
        ({
            let p = label@ + seq!['.', '0'];
            match r {
                Ok(s) => valid_pre_chars(p) && s@ == p,
                Err(e) => !valid_pre_chars(p) && e@ == (ErrorView::InvalidPrereleaseLabel {
                    label: label@,
                }),
            }
        }),
{
    let mut p = chars_vec(label.as_str());
    p.push('.');
    p.push('0');
    proof {
        assert(p@ =~= label@ + seq!['.', '0']);
    }
    if is_valid_pre(&p) {
        Ok(string_from_chars(&p))
    } else {
        Err(StepError::InvalidPrereleaseLabel { label: label.clone() })
    }
}

/// Bump the prerelease component, falling back to `fallback_rule` when the
/// version has no prerelease yet.
fn bump_pre(version: Version, prefix: &String, fallback_rule: ConventionalRule) -> (r: Result<
    Version,
    StepError,
>)
    requires
        version@.wf(),
    ensures
        bumped_view(r) == spec_bump_pre(version@, prefix@, fallback_rule),
        r matches Ok(v) ==> v@.wf(),
{
    if version.pre.as_str().is_empty() {
        match bump_numeric(version, fallback_rule) {
            Err(e) => Err(e),
            Ok(b) => match reset_prerelease(prefix) {
                Ok(p) => Ok(Version { pre: p, ..b }),
                Err(e) => Err(e),
            },
        }
    } else {
        let pv = chars_vec(version.pre.as_str());
        let i = match find_char(&pv, '.') {
            None => {
                return Err(StepError::PrereleaseNotIncrementable);
            },
            Some(i) => i,
        };
        proof {
            lemma_find_idx(pv@, '.');
        }
        let n = pv.len();
        let tail = sub_vec(&pv, i + 1, n);
        if find_char(&tail, '.').is_some() {
            return Err(StepError::PrereleaseNotIncrementable);
        }
        let head = sub_vec(&pv, 0, i);
        let labelv = chars_vec(prefix.as_str());
        if !chars_eq(&head, &labelv) {
            match reset_prerelease(prefix) {
                Ok(p) => Ok(Version { pre: p, ..version }),
                Err(e) => Err(e),
            }
        } else {
            let n = match parse_decimal(&tail) {
                None => {
                    return Err(StepError::InvalidPrereleaseSuffix);
                },
                Some(n) => n,
            };
            if n > 65535 {
                return Err(StepError::InvalidPrereleaseSuffix);
            }
            let mut out = head;
            out.push('.');
            push_u64(&mut out, n + 1);
            proof {
                assert(out@ =~= prefix@ + seq!['.'] + dec_rep((n + 1) as nat));
                assert(valid_pre_chars(version.pre@));
                assert(valid_pre_ident(version.pre@.take(i as int)));
                lemma_dec_rep_ident((n + 1) as nat);
                lemma_valid_pre_pair(prefix@, dec_rep((n + 1) as nat));
            }
            Ok(
                Version {
                    major: version.major,
                    minor: version.minor,
                    patch: version.patch,
                    pre: string_from_chars(&out),
                },
            )
        }
    }
}

/// Are two character vectors equal?
fn chars_eq(a: &Vec<char>, b: &Vec<char>) -> (r: bool)
    ensures
        r == (a@ == b@),
{
    if a.len() != b.len() {
        return false;
    }
    let mut i: usize = 0;
    while i < a.len()
        invariant
            a@.len() == b@.len(),
            i <= a@.len(),
            forall|j: int| 0 <= j < i ==> a@[j] == b@[j],
        decreases a@.len() - i,
    {
        if a[i] != b[i] {
            return false;
        }
        i += 1;
    }
    proof {
        assert(a@ =~= b@);
    }
    true
}

/// Apply a bump rule to a version, per the rule table: increment and reset
/// the right components, clear or step the prerelease, and demote Major and
/// Minor requests by one severity on `0.x` versions.
pub fn bump(version: Version, rule: Rule) -> (r: Result<Version, StepError>)
    requires
        version@.wf(),
    ensures
        bumped_view(r) == spec_bump(version@, rule@),
        r matches Ok(v) ==> v@.wf(),
{
    match rule {
        Rule::Major => bump_numeric(version, ConventionalRule::Major),
        Rule::Minor => bump_numeric(version, ConventionalRule::Minor),
        Rule::Patch => bump_numeric(version, ConventionalRule::Patch),
        Rule::Release => Ok(Version { pre: String::new(), ..version }),
        Rule::Pre { label, fallback_rule } => bump_pre(version, &label, fallback_rule),
    }
}

/// For stable versions (major not zero), Major, Minor and Patch increment
/// their component, reset the lower ones, and clear the prerelease.
pub proof fn lemma_bump_stable(v: VersionView)
    requires
        v.major != 0,
        v.major < u64::MAX,
        v.minor < u64::MAX,
        v.patch < u64::MAX,
    ensures
        spec_bump(v, RuleView::Major) == Ok::<VersionView, ErrorView>(
            VersionView {
                major: (v.major + 1) as u64,
                minor: 0,
                patch: 0,
                pre: Seq::<char>::empty(),
            },
        ),
        spec_bump(v, RuleView::Minor) == Ok::<VersionView, ErrorView>(
            VersionView {
                major: v.major,
                minor: (v.minor + 1) as u64,
                patch: 0,
                pre: Seq::<char>::empty(),
            },
        ),
        spec_bump(v, RuleView::Patch) == Ok::<VersionView, ErrorView>(
            VersionView {
                major: v.major,
                minor: v.minor,
                patch: (v.patch + 1) as u64,
                pre: Seq::<char>::empty(),
            },
        ),
{
}

/// For pre-stable versions (major zero), Major acts as Minor would on a
/// stable version, and Minor acts as Patch: each request is demoted one
/// severity level.
pub proof fn lemma_bump_prestable(v: VersionView)
    requires
        v.major == 0,
        v.minor < u64::MAX,
        v.patch < u64::MAX,
    ensures
        spec_bump(v, RuleView::Major) == Ok::<VersionView, ErrorView>(
            VersionView { major: 0, minor: (v.minor + 1) as u64, patch: 0, pre: Seq::<char>::empty() },
        ),
        spec_bump(v, RuleView::Minor) == Ok::<VersionView, ErrorView>(
            VersionView {
                major: 0,
                minor: v.minor,
                patch: (v.patch + 1) as u64,
                pre: Seq::<char>::empty(),
            },
        ),
        spec_bump(v, RuleView::Major) == numeric_minor(v),
        spec_bump(v, RuleView::Minor) == numeric_patch(v),
{
}

/// Release strips any prerelease, leaves every numeric component untouched,
/// never fails, and is idempotent.
pub proof fn lemma_release_strips(v: VersionView)
    ensures
        spec_bump(v, RuleView::Release) == Ok::<VersionView, ErrorView>(
            VersionView { pre: Seq::<char>::empty(), ..v },
        ),
        spec_bump(spec_bump(v, RuleView::Release)->Ok_0, RuleView::Release) == spec_bump(
            v,
            RuleView::Release,
        ),
{
}

/// A prerelease bump with a label other than the existing `label.N` one
/// resets the prerelease to `label.0` and changes nothing else.
pub proof fn lemma_pre_label_reset(v: VersionView, label: Seq<char>, fallback: ConventionalRule)
    requires
        v.pre.len() > 0,
        find_idx(v.pre, '.') >= 0,
        find_idx(v.pre.skip(find_idx(v.pre, '.') + 1), '.') < 0,
        v.pre.take(find_idx(v.pre, '.')) != label,
        valid_pre_chars(label + seq!['.', '0']),
    ensures
        spec_bump(v, RuleView::Pre { label, fallback_rule: fallback }) == Ok::<
            VersionView,
            ErrorView,
        >(VersionView { pre: label + seq!['.', '0'], ..v }),
{
}

} // verus!

