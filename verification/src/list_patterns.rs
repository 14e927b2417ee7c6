//! List-joiner patterns: the literals placed between list elements, with an
//! optional special case that switches on the following element.
//!
//! A joiner pattern is authored as a string containing the two placeholders
//! `{0}` and `{1}`; parsing strips them and records where the second one
//! stood. A conditional pattern holds a default joiner and, optionally, a
//! matcher plus an alternative joiner used when the matcher accepts the
//! following element. The matcher itself runs in the `regex_automata` crate
//! behind trusted wrappers; everything around it is verified.

use vstd::prelude::*;

verus! {

/// The width in which a list is rendered.
#[derive(Debug, Clone, Copy, PartialEq, Eq, Structural)]
pub enum Width {
    /// The full form.
    Wide,
    /// An abbreviated form.
    Short,
    /// The narrowest form.
    Narrow,
}

/// The position a width selects in the pattern table.
pub open spec fn spec_width_index(w: Width) -> int {
    match w {
        Width::Wide => 0,
        Width::Short => 1,
        Width::Narrow => 2,
    }
}

fn width_index(w: Width) -> (r: usize)
    ensures
        r == spec_width_index(w),
{
    match w {
        Width::Wide => 0,
        Width::Short => 1,
        Width::Narrow => 2,
    }
}

/// The error reported for a pattern string that cannot be used: it carries
/// the offending pattern.
#[derive(Debug, Clone, PartialEq, Eq)]
pub enum PatternError {
    /// The pattern misses a placeholder, places the second one too far out,
    /// or does not compile as a matcher expression.
    IllegalPattern(String),
}

/// Whether `pattern` compiles as an anchored, case-insensitive matcher
/// expression. Decided by `regex_automata`; named here, a function of the
/// pattern alone.
pub uninterp spec fn pattern_compiles(pattern: Seq<char>) -> bool;

/// An authored expression with a redundant leading `^` removed: every
/// matcher is anchored to the beginning already, and the matcher engine
/// takes no anchor of its own.
pub open spec fn spec_anchor_stripped(s: Seq<char>) -> Seq<char> {
    if s.len() > 0 && s[0] == '^' {
        s.subrange(1, s.len() as int)
    } else {
        s
    }
}

/// Whether the anchored, case-insensitive matcher built from `pattern`
/// accepts a prefix of `text`. Computed by `regex_automata`; named here, a
/// function of pattern and text alone.
pub uninterp spec fn matcher_matches(pattern: Seq<char>, text: Seq<char>) -> bool;

/// Relies on `regex_automata::RegexBuilder::build`: whether `pattern`
/// compiles as an anchored, case-insensitive expression. Building is
/// deterministic in the pattern text.
#[verifier::external_body]
fn try_build(pattern: &str) -> (r: bool)
    ensures
        r == pattern_compiles(pattern@),
{
    let mut builder = regex_automata::RegexBuilder::new();
    builder.anchored(true);
    builder.case_insensitive(true);
    builder.build(pattern).is_ok()
}

/// A matcher for the special case of a conditional pattern: anchored to the
/// beginning of the following element and case-insensitive.
#[derive(Debug)]
pub struct StringMatcher {
    pattern: String,
}

impl StringMatcher {
    /// The matcher's expression text.
    pub closed spec fn spec_pattern(&self) -> Seq<char> {
        self.pattern@
    }

    /// Accepts exactly the expressions that compile as anchored,
    /// case-insensitive matchers; rejects the rest with the offending text.
    /// A leading `^` is redundant under anchoring and is removed before the
    /// expression is compiled and stored.
    pub fn new(pattern: &str) -> (r: Result<StringMatcher, PatternError>)
        ensures
            r is Ok <==> pattern_compiles(spec_anchor_stripped(pattern@)),
            r matches Ok(m) ==> m.spec_pattern() == spec_anchor_stripped(pattern@),
            r matches Err(e) ==> (e matches PatternError::IllegalPattern(s) && s@ == pattern@),
    {
        let n = pattern.unicode_len();
        let stripped: &str = if n > 0 && pattern.get_char(0) == '^' {
            pattern.substring_char(1, n)
        } else {
            pattern
        };
        if try_build(stripped) {
            Ok(StringMatcher { pattern: stripped.to_owned() })
        } else {
            Err(PatternError::IllegalPattern(pattern.to_owned()))
        }
    }

    /// Relies on `regex_automata::RegexBuilder::build` and
    /// `Regex::is_match`: whether the matcher accepts a prefix of `s`. The
    /// expression was checked in `new`, and the search is deterministic in
    /// the expression and the text.
    #[verifier::external_body]
    pub fn test(&self, s: &str) -> (r: bool)
        ensures
            r == matcher_matches(self.spec_pattern(), s@),
    {
        let mut builder = regex_automata::RegexBuilder::new();
        builder.anchored(true);
        builder.case_insensitive(true);
        match builder.build(&self.pattern) {
            Ok(re) => re.is_match(s.as_bytes()),
            Err(_) => false,
        }
    }
}

/// The pattern text split at the second placeholder: what comes before it
/// and what comes after it.
pub type PatternParts<'a> = (&'a str, &'a str);

/// A pattern containing two numeric placeholders, such as `{0}, and {1}.`,
/// stored as the text without the placeholders plus the position where the
/// second one stood.
#[derive(Debug)]
pub struct ListJoinerPattern {
    /// The pattern text without the placeholders.
    string: String,
    /// The position of the second placeholder in `string`.
    index_1: u8,
}

/// `{1}` stands at position `i` of `s`.
pub open spec fn spec_has_1_at(s: Seq<char>, i: int) -> bool {
    &&& 0 <= i
    &&& i + 3 <= s.len()
    &&& s[i] == '{'
    &&& s[i + 1] == '1'
    &&& s[i + 2] == '}'
}

/// `s` begins with the placeholder `{0}`.
pub open spec fn spec_starts_0(s: Seq<char>) -> bool {
    &&& s.len() >= 3
    &&& s[0] == '{'
    &&& s[1] == '0'
    &&& s[2] == '}'
}

/// The position of the first `{1}` at or after `i`, or one past the end of
/// `s` when there is none.
pub open spec fn spec_first_1_from(s: Seq<char>, i: int) -> int
    decreases s.len() - i,
{
    if i < 0 || i + 3 > s.len() {
        s.len() as int + 1
    } else if spec_has_1_at(s, i) {
        i
    } else {
        spec_first_1_from(s, i + 1)
    }
}

/// The position of the first `{1}` in `s`, or one past the end.
pub open spec fn spec_first_1(s: Seq<char>) -> int {
    spec_first_1_from(s, 0)
}

/// `s` is a well-formed joiner pattern: it begins with `{0}`, contains
/// `{1}`, and the second placeholder begins no later than position 258, so
/// that its recorded position fits in one byte.
pub open spec fn spec_parses(s: Seq<char>) -> bool {
    &&& spec_starts_0(s)
    &&& spec_has_1_at(s, spec_first_1(s))
    &&& spec_first_1(s) <= 258
}

/// `v` is the parse of the pattern text `s`: the text between and after the
/// placeholders, and where the second placeholder stood.
pub open spec fn spec_parsed_joiner(v: ListJoinerPattern, s: Seq<char>) -> bool {
    let i = spec_first_1(s);
    &&& v.spec_string() == s.subrange(3, i) + s.subrange(i + 3, s.len() as int)
    &&& v.spec_index1() == i - 3
}

/// The two parts a joiner pattern is interpolated from.
pub open spec fn spec_pattern_parts(p: ListJoinerPattern) -> (Seq<char>, Seq<char>) {
    (
        p.spec_string().subrange(0, p.spec_index1() as int),
        p.spec_string().subrange(p.spec_index1() as int, p.spec_string().len() as int),
    )
}

/// Joiner patterns with the same text and placeholder position.
pub open spec fn spec_joiner_eq(a: ListJoinerPattern, b: ListJoinerPattern) -> bool {
    &&& a.spec_string() == b.spec_string()
    &&& a.spec_index1() == b.spec_index1()
}

proof fn lemma_first_1_found(s: Seq<char>, a: int, i: int)
    requires
        0 <= a <= i,
        forall|j: int| a <= j < i ==> !spec_has_1_at(s, j),
        spec_has_1_at(s, i),
    ensures
        spec_first_1_from(s, a) == i,
    decreases i - a,
{
    if a < i {
        assert(!spec_has_1_at(s, a));
        lemma_first_1_found(s, a + 1, i);
    }
}

proof fn lemma_first_1_none(s: Seq<char>, a: int)
    requires
        0 <= a,
        forall|j: int| a <= j ==> !spec_has_1_at(s, j),
    ensures
        spec_first_1_from(s, a) == s.len() + 1,
    decreases s.len() - a,
{
    if a + 3 <= s.len() {
        assert(!spec_has_1_at(s, a));
        lemma_first_1_none(s, a + 1);
    }
}

/// The position of the first `{1}` at or after `from`, searched character
/// by character.
fn find_1(pattern: &str, n: usize) -> (r: Option<usize>)
    requires
        n == pattern@.len(),
    ensures
        r matches Some(i) ==> spec_has_1_at(pattern@, i as int) && (forall|j: int|
            0 <= j < i ==> !spec_has_1_at(pattern@, j)),
        r is None ==> forall|j: int| !spec_has_1_at(pattern@, j),
{
    let mut i: usize = 0;
    while n >= 3 && i <= n - 3
        invariant
            n == pattern@.len(),
            forall|j: int| 0 <= j < i ==> !spec_has_1_at(pattern@, j),
        decreases n - i,
    {
        if pattern.get_char(i) == '{' && pattern.get_char(i + 1) == '1' && pattern.get_char(i + 2)
            == '}' {
            return Some(i);
        }
        proof {
            assert(!spec_has_1_at(pattern@, i as int));
        }
        i = i + 1;
    }
    proof {
        assert forall|j: int| !spec_has_1_at(pattern@, j) by {
            if 0 <= j < i {
            } else if j >= i {
                assert(j + 3 > n);
            }
        }
    }
    None
}

impl ListJoinerPattern {
    /// The recorded placeholder position never passes the end of the text.
    #[verifier::type_invariant]
    pub open spec fn wf(&self) -> bool {
        self.spec_index1() <= self.spec_string().len()
    }

    /// The pattern text without the placeholders.
    pub closed spec fn spec_string(&self) -> Seq<char> {
        self.string@
    }

    /// The position of the second placeholder in the text.
    pub closed spec fn spec_index1(&self) -> u8 {
        self.index_1
    }

    /// Parses an authored pattern. Succeeds exactly on well-formed patterns:
    /// the text must begin with `{0}` and contain `{1}` no further out than
    /// position 258; everything else is rejected with the offending text.
    pub fn from_str(pattern: &str) -> (r: Result<ListJoinerPattern, PatternError>)
        ensures
            r is Ok <==> spec_parses(pattern@),
            r matches Ok(v) ==> spec_parsed_joiner(v, pattern@),
            r matches Err(e) ==> (e matches PatternError::IllegalPattern(s) && s@ == pattern@),
    {
        let n = pattern.unicode_len();
        if n < 3 || pattern.get_char(0) != '{' || pattern.get_char(1) != '0' || pattern.get_char(2)
            != '}' {
            return Err(PatternError::IllegalPattern(pattern.to_owned()));
        }
        match find_1(pattern, n) {
            Some(i) => {
                proof {
                    assert(i >= 3) by {
                        assert(spec_starts_0(pattern@));
                        assert(spec_has_1_at(pattern@, i as int));
                    }
                    lemma_first_1_found(pattern@, 0, i as int);
                }
                if i - 3 > 255 {
                    return Err(PatternError::IllegalPattern(pattern.to_owned()));
                }
                let prefix = pattern.substring_char(3, i);
                let suffix = pattern.substring_char(i + 3, n);
                let mut string = prefix.to_owned();
                string.append(suffix);
                let v = ListJoinerPattern { string, index_1: (i - 3) as u8 };
                proof {
                    assert(v.spec_string() =~= pattern@.subrange(3, i as int) + pattern@.subrange(
                        i + 3,
                        pattern@.len() as int,
                    ));
                }
                Ok(v)
            },
            None => {
                proof {
                    lemma_first_1_none(pattern@, 0);
                }
                Err(PatternError::IllegalPattern(pattern.to_owned()))
            },
        }
    }

    /// The text before and after the second placeholder.
    fn borrow_tuple<'a>(&'a self) -> (r: PatternParts<'a>)
        ensures
            (r.0@, r.1@) == spec_pattern_parts(*self),
    {
        proof {
            use_type_invariant(self);
        }
        let n = self.string.as_str().unicode_len();
        let i1 = self.index_1 as usize;
        (self.string.as_str().substring_char(0, i1), self.string.as_str().substring_char(i1, n))
    }
}

/// A joiner used in place of the default when a matcher accepts the
/// following element.
#[derive(Debug)]
pub struct SpecialCasePattern {
    condition: StringMatcher,
    pattern: ListJoinerPattern,
}

impl SpecialCasePattern {
    /// The matcher that selects the special case.
    pub closed spec fn spec_condition(&self) -> StringMatcher {
        self.condition
    }

    /// The joiner used when the matcher accepts.
    pub closed spec fn spec_pattern(&self) -> ListJoinerPattern {
        self.pattern
    }
}

/// Special cases with the same matcher expression and joiner contents.
pub open spec fn spec_special_eq(a: SpecialCasePattern, b: SpecialCasePattern) -> bool {
    &&& a.spec_condition().spec_pattern() == b.spec_condition().spec_pattern()
    &&& spec_joiner_eq(a.spec_pattern(), b.spec_pattern())
}

/// A pattern that can behave conditionally on the next element.
#[derive(Debug)]
pub struct ConditionalListJoinerPattern {
    default: ListJoinerPattern,
    special_case: Option<SpecialCasePattern>,
}

/// Conditional patterns with the same default, and special cases that agree.
pub open spec fn spec_cond_eq(a: ConditionalListJoinerPattern, b: ConditionalListJoinerPattern) -> bool {
    &&& spec_joiner_eq(a.spec_default(), b.spec_default())
    &&& match (a.spec_special(), b.spec_special()) {
        (Option::Some(x), Option::Some(y)) => spec_special_eq(x, y),
        (Option::None, Option::None) => true,
        _ => false,
    }
}

/// The joiner a conditional pattern selects for a following element: the
/// special case when its matcher accepts the element, the default otherwise.
pub open spec fn spec_selected(c: ConditionalListJoinerPattern, value: Seq<char>) -> ListJoinerPattern {
    match c.spec_special() {
        Option::Some(sc) => if matcher_matches(sc.spec_condition().spec_pattern(), value) {
            sc.spec_pattern()
        } else {
            c.spec_default()
        },
        Option::None => c.spec_default(),
    }
}

/// The longer of the default's text and the special case's text: exact when
/// the pattern is unconditional, an upper bound otherwise.
pub open spec fn spec_cond_size_hint(c: ConditionalListJoinerPattern) -> int {
    let d = c.spec_default().spec_string().len() as int;
    let s = match c.spec_special() {
        Option::Some(sc) => sc.spec_pattern().spec_string().len() as int,
        Option::None => 0,
    };
    if d >= s {
        d
    } else {
        s
    }
}

impl ConditionalListJoinerPattern {
    /// The joiner used when no special case applies.
    pub closed spec fn spec_default(&self) -> ListJoinerPattern {
        self.default
    }

    /// The special case, if the pattern has one.
    pub closed spec fn spec_special(&self) -> Option<SpecialCasePattern> {
        self.special_case
    }

    /// Parses an unconditional pattern; accepts and rejects exactly as
    /// [`ListJoinerPattern::from_str`].
    pub fn from_str(pattern: &str) -> (r: Result<ConditionalListJoinerPattern, PatternError>)
        ensures
            r is Ok <==> spec_parses(pattern@),
            r matches Ok(c) ==> spec_parsed_joiner(c.spec_default(), pattern@) && c.spec_special()
                is None,
            r matches Err(e) ==> (e matches PatternError::IllegalPattern(s) && s@ == pattern@),
    {
        match ListJoinerPattern::from_str(pattern) {
            Ok(default) => Ok(ConditionalListJoinerPattern { default, special_case: None }),
            Err(e) => Err(e),
        }
    }

    /// Creates a conditional list joiner that evaluates to `then_pattern`
    /// when the matcher built from `regex` accepts the following element,
    /// and to `else_pattern` otherwise. The matcher is anchored to the
    /// beginning and case-insensitive. Succeeds exactly when both patterns
    /// are well formed and the expression compiles; the first offender, in
    /// the order else-pattern, expression, then-pattern, is reported.
    pub fn from_regex_and_strs(regex: &str, then_pattern: &str, else_pattern: &str) -> (r: Result<
        ConditionalListJoinerPattern,
        PatternError,
    >)
        ensures
            r is Ok <==> spec_parses(else_pattern@) && pattern_compiles(
                spec_anchor_stripped(regex@),
            ) && spec_parses(then_pattern@),
            r matches Ok(c) ==> spec_parsed_joiner(c.spec_default(), else_pattern@)
                && (c.spec_special() matches Option::Some(sc)
                && sc.spec_condition().spec_pattern() == spec_anchor_stripped(regex@)
                && spec_parsed_joiner(sc.spec_pattern(), then_pattern@)),
            r matches Err(e) ==> (e matches PatternError::IllegalPattern(s) && (s@ == else_pattern@
                || s@ == regex@ || s@ == then_pattern@)),
    {
        let default = match ListJoinerPattern::from_str(else_pattern) {
            Ok(v) => v,
            Err(e) => {
                return Err(e);
            },
        };
        let condition = match StringMatcher::new(regex) {
            Ok(m) => m,
            Err(e) => {
                return Err(e);
            },
        };
        let pattern = match ListJoinerPattern::from_str(then_pattern) {
            Ok(v) => v,
            Err(e) => {
                return Err(e);
            },
        };
        Ok(ConditionalListJoinerPattern {
            default,
            special_case: Some(SpecialCasePattern { condition, pattern }),
        })
    }

    /// The two literal parts to interpolate around the next element,
    /// selected by testing `following_value` against the special case.
    pub fn parts<'a>(&'a self, following_value: &str) -> (r: PatternParts<'a>)
        ensures
            (r.0@, r.1@) == spec_pattern_parts(spec_selected(*self, following_value@)),
    {
        match &self.special_case {
            Some(sc) => {
                if sc.condition.test(following_value) {
                    sc.pattern.borrow_tuple()
                } else {
                    self.default.borrow_tuple()
                }
            },
            None => self.default.borrow_tuple(),
        }
    }

    /// The expected length of this pattern's literals: exact when the
    /// pattern is unconditional, otherwise an upper bound over both cases.
    pub fn size_hint(&self) -> (r: usize)
        ensures
            r == spec_cond_size_hint(*self),
    {
        let d = self.default.string.as_str().unicode_len();
        match &self.special_case {
            Some(sc) => {
                let s = sc.pattern.string.as_str().unicode_len();
                if d >= s {
                    d
                } else {
                    s
                }
            },
            None => d,
        }
    }
}

fn clone_joiner(p: &ListJoinerPattern) -> (r: ListJoinerPattern)
    ensures
        spec_joiner_eq(r, *p),
{
    proof {
        use_type_invariant(p);
    }
    ListJoinerPattern { string: p.string.clone(), index_1: p.index_1 }
}

fn clone_cond(p: &ConditionalListJoinerPattern) -> (r: ConditionalListJoinerPattern)
    ensures
        spec_cond_eq(r, *p),
{
    let special_case = match &p.special_case {
        Some(sc) => Some(
            SpecialCasePattern {
                condition: StringMatcher { pattern: sc.condition.pattern.clone() },
                pattern: clone_joiner(&sc.pattern),
            },
        ),
        None => None,
    };
    ConditionalListJoinerPattern { default: clone_joiner(&p.default), special_case }
}

fn joiner_eq(a: &ListJoinerPattern, b: &ListJoinerPattern) -> (r: bool)
    ensures
        r == spec_joiner_eq(*a, *b),
{
    a.string == b.string && a.index_1 == b.index_1
}

fn cond_eq(a: &ConditionalListJoinerPattern, b: &ConditionalListJoinerPattern) -> (r: bool)
    ensures
        r == spec_cond_eq(*a, *b),
{
    if !joiner_eq(&a.default, &b.default) {
        return false;
    }
    match (&a.special_case, &b.special_case) {
        (Some(x), Some(y)) => x.condition.pattern == y.condition.pattern && joiner_eq(
            &x.pattern,
            &y.pattern,
        ),
        (None, None) => true,
        _ => false,
    }
}

/// The twelve joiner patterns of a list formatter, one per position and
/// width.
#[derive(Debug)]
pub struct ListFormatterPatternsV1(Vec<ConditionalListJoinerPattern>);

/// The joint size hint of joining `n` elements at width `w`: nothing to
/// join below two elements, the pair pattern for exactly two, and otherwise
/// the start and end patterns with the middle pattern repeated between.
pub open spec fn spec_patterns_size_hint(p: ListFormatterPatternsV1, w: Width, n: int) -> int {
    let base = 4 * spec_width_index(w);
    if n <= 1 {
        0
    } else if n == 2 {
        spec_cond_size_hint(p.spec_patterns()[base + 3])
    } else {
        spec_cond_size_hint(p.spec_patterns()[base]) + spec_cond_size_hint(
            p.spec_patterns()[base + 1],
        ) * (n - 3) + spec_cond_size_hint(p.spec_patterns()[base + 2])
    }
}

impl ListFormatterPatternsV1 {
    /// A pattern table always holds exactly twelve patterns.
    #[verifier::type_invariant]
    pub open spec fn wf(&self) -> bool {
        self.spec_patterns().len() == 12
    }

    /// The stored patterns, in table order.
    pub closed spec fn spec_patterns(&self) -> Seq<ConditionalListJoinerPattern> {
        self.0@
    }

    /// Builds the table from the patterns in the order start, middle, end,
    /// pair, short start, short middle, short end, short pair, narrow start,
    /// narrow middle, narrow end, narrow pair.
    pub fn new(patterns: Vec<ConditionalListJoinerPattern>) -> (r: ListFormatterPatternsV1)
        requires
            patterns@.len() == 12,
        ensures
            r.spec_patterns() == patterns@,
    {
        ListFormatterPatternsV1(patterns)
    }

    /// The pattern before the first element, at the given width.
    pub fn start(&self, width: Width) -> (r: &ConditionalListJoinerPattern)
        ensures
            *r == self.spec_patterns()[4 * spec_width_index(width)],
    {
        proof {
            use_type_invariant(self);
        }
        &self.0[4 * width_index(width)]
    }

    /// The pattern between inner elements, at the given width.
    pub fn middle(&self, width: Width) -> (r: &ConditionalListJoinerPattern)
        ensures
            *r == self.spec_patterns()[4 * spec_width_index(width) + 1],
    {
        proof {
            use_type_invariant(self);
        }
        &self.0[4 * width_index(width) + 1]
    }

    /// The pattern before the last element, at the given width.
    pub fn end(&self, width: Width) -> (r: &ConditionalListJoinerPattern)
        ensures
            *r == self.spec_patterns()[4 * spec_width_index(width) + 2],
    {
        proof {
            use_type_invariant(self);
        }
        &self.0[4 * width_index(width) + 2]
    }

    /// The pattern joining a two-element list, at the given width.
    pub fn pair(&self, width: Width) -> (r: &ConditionalListJoinerPattern)
        ensures
            *r == self.spec_patterns()[4 * spec_width_index(width) + 3],
    {
        proof {
            use_type_invariant(self);
        }
        &self.0[4 * width_index(width) + 3]
    }

    /// Replaces every pattern equal to `old_pattern` with `new_pattern`.
    pub fn replace_patterns(
        &mut self,
        old_pattern: &ConditionalListJoinerPattern,
        new_pattern: &ConditionalListJoinerPattern,
    )
        ensures
            forall|i: int|
                #![trigger final(self).spec_patterns()[i]]
                0 <= i < 12 ==> (if spec_cond_eq(old(self).spec_patterns()[i], *old_pattern) {
                    spec_cond_eq(final(self).spec_patterns()[i], *new_pattern)
                } else {
                    final(self).spec_patterns()[i] == old(self).spec_patterns()[i]
                }),
    {
        proof {
            use_type_invariant(&*self);
        }
        let mut i: usize = 0;
        while i < 12
            invariant
                i <= 12,
                self.spec_patterns().len() == 12,
                forall|j: int|
                    #![trigger self.spec_patterns()[j]]
                    0 <= j < i ==> (if spec_cond_eq(old(self).spec_patterns()[j], *old_pattern) {
                        spec_cond_eq(self.spec_patterns()[j], *new_pattern)
                    } else {
                        self.spec_patterns()[j] == old(self).spec_patterns()[j]
                    }),
                forall|j: int|
                    i <= j < 12 ==> self.spec_patterns()[j] == old(self).spec_patterns()[j],
            decreases 12 - i,
        {
            if cond_eq(&self.0[i], old_pattern) {
                let replacement = clone_cond(new_pattern);
                self.0[i] = replacement;
            }
            i = i + 1;
        }
    }

    /// The expected number of characters the list literals contribute when
    /// joining `len` elements at the given width. Exact when none of the
    /// involved patterns is conditional, an upper bound otherwise.
    pub fn size_hint(&self, width: Width, len: usize) -> (r: usize)
        requires
            spec_patterns_size_hint(*self, width, len as int) <= usize::MAX,
        ensures
            r == spec_patterns_size_hint(*self, width, len as int),
    {
        proof {
            use_type_invariant(self);
        }
        if len <= 1 {
            0
        } else if len == 2 {
            self.pair(width).size_hint()
        } else {
            let s = self.start(width).size_hint();
            let m = self.middle(width).size_hint();
            let e = self.end(width).size_hint();
            s + m * (len - 3) + e
        }
    }
}

} // verus!
