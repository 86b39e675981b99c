//! A simple, low-resource text to phoneme translation.
//!
//! Text is translated word by word with context-sensitive rewrite rules in
//! the style of Elovitz et al.  A rule `pre[body]post=output` rewrites
//! `body` to the phonetic `output` when the text around it matches the
//! `pre` and `post` context patterns.  Context patterns are matched
//! greedily, one pattern character at a time:
//!
//! * a lowercase letter, a space or an apostrophe matches itself;
//! * `#` matches one or more vowels;
//! * `:` matches zero or more consonants;
//! * `^` matches one consonant;
//! * `+` matches a front vowel (e, i, y);
//! * `.` matches a voiced consonant;
//! * `&` (left context only) matches a sibilant, including the digraphs
//!   ch and sh;
//! * `@` (left context only) matches a consonant that colours a following
//!   long u, including the digraphs ch, sh and th;
//! * `%` (right context only) matches a common suffix (ing, e, ed, er,
//!   es, ely).

use vstd::prelude::*;
use vstd::string::StrSliceExecFns;
use vstd::string::StringExecFns;

verus! {

/// c is a lowercase ASCII letter.
pub open spec fn spec_is_lower(c: char) -> bool {
    'a' <= c && c <= 'z'
}

/// c is a vowel letter.
pub open spec fn spec_is_vowel(c: char) -> bool {
    c == 'a' || c == 'e' || c == 'i' || c == 'o' || c == 'u' || c == 'y'
}

/// c is a lowercase letter that is not a vowel.
pub open spec fn spec_is_consonant(c: char) -> bool {
    spec_is_lower(c) && !spec_is_vowel(c)
}

/// c is a front vowel.
pub open spec fn spec_is_front_vowel(c: char) -> bool {
    c == 'e' || c == 'i' || c == 'y'
}

/// c is a voiced consonant letter.
pub open spec fn spec_is_voiced_consonant(c: char) -> bool {
    c == 'b' || c == 'd' || c == 'g' || c == 'j' || c == 'l' || c == 'm' || c == 'n' || c == 'r'
        || c == 'v' || c == 'w' || c == 'z'
}

/// c is a sibilant letter.
pub open spec fn spec_is_sibilant(c: char) -> bool {
    c == 'c' || c == 'j' || c == 's' || c == 'x'
}

/// c is a consonant letter that turns a following u into a long u.
pub open spec fn spec_is_long_u_consonant(c: char) -> bool {
    c == 'd' || c == 'g' || c == 'j' || c == 'l' || c == 'n' || c == 'r' || c == 's' || c == 't'
        || c == 'z'
}

fn is_lower_c(c: char) -> (r: bool)
    ensures
        r == spec_is_lower(c),
{
    'a' <= c && c <= 'z'
}

fn is_vowel_c(c: char) -> (r: bool)
    ensures
        r == spec_is_vowel(c),
{
    c == 'a' || c == 'e' || c == 'i' || c == 'o' || c == 'u' || c == 'y'
}

fn is_consonant_c(c: char) -> (r: bool)
    ensures
        r == spec_is_consonant(c),
{
    is_lower_c(c) && !is_vowel_c(c)
}

fn is_front_vowel_c(c: char) -> (r: bool)
    ensures
        r == spec_is_front_vowel(c),
{
    c == 'e' || c == 'i' || c == 'y'
}

fn is_voiced_consonant_c(c: char) -> (r: bool)
    ensures
        r == spec_is_voiced_consonant(c),
{
    c == 'b' || c == 'd' || c == 'g' || c == 'j' || c == 'l' || c == 'm' || c == 'n' || c == 'r'
        || c == 'v' || c == 'w' || c == 'z'
}

fn is_sibilant_c(c: char) -> (r: bool)
    ensures
        r == spec_is_sibilant(c),
{
    c == 'c' || c == 'j' || c == 's' || c == 'x'
}

fn is_long_u_consonant_c(c: char) -> (r: bool)
    ensures
        r == spec_is_long_u_consonant(c),
{
    c == 'd' || c == 'g' || c == 'j' || c == 'l' || c == 'n' || c == 'r' || c == 's' || c == 't'
        || c == 'z'
}

/// Greedy backward scan over vowels for the `#` left-context pattern.
/// Returns the index reached and the updated vowel counter; the scan stops
/// at the start of the text without counting the last vowel, exactly as
/// the matcher walks the text.
pub open spec fn scan_vowels_back(text: Seq<char>, ix: int, count: int) -> (int, int)
    decreases ix,
{
    if ix > 0 && spec_is_vowel(text[ix - 1]) {
        if ix - 1 == 0 {
            (0, count)
        } else {
            scan_vowels_back(text, ix - 1, count + 1)
        }
    } else {
        (ix, count)
    }
}

/// Greedy backward scan over consonants for the `:` left-context pattern.
pub open spec fn scan_consonants_back(text: Seq<char>, ix: int) -> int
    decreases ix,
{
    if ix > 0 && spec_is_consonant(text[ix - 1]) {
        scan_consonants_back(text, ix - 1)
    } else {
        ix
    }
}

/// Greedy forward scan over vowels for the `#` right-context pattern.
/// Returns the index reached and whether a vowel was consumed before the
/// end of the text.
pub open spec fn scan_vowels_fwd(text: Seq<char>, ix: int, matched: bool) -> (int, bool)
    decreases text.len() - ix,
{
    if 0 <= ix < text.len() && spec_is_vowel(text[ix]) {
        if ix + 1 == text.len() {
            (ix + 1, matched)
        } else {
            scan_vowels_fwd(text, ix + 1, true)
        }
    } else {
        (ix, matched)
    }
}

/// Greedy forward scan over consonants for the `:` right-context pattern.
pub open spec fn scan_consonants_fwd(text: Seq<char>, ix: int) -> int
    decreases text.len() - ix,
{
    if 0 <= ix < text.len() && spec_is_consonant(text[ix]) {
        scan_consonants_fwd(text, ix + 1)
    } else {
        ix
    }
}

/// Whether the right-context pattern `post`, from pattern position i on,
/// matches the text from position eix on.
pub open spec fn match_post(post: Seq<char>, i: int, text: Seq<char>, eix: int) -> bool
    decreases post.len() - i,
{
    if i < 0 || i >= post.len() {
        true
    } else if eix >= text.len() {
        false
    } else {
        let q = post[i];
        let next = text[eix];
        if spec_is_lower(q) || q == ' ' || q == '\'' {
            next == q && match_post(post, i + 1, text, eix + 1)
        } else if q == '#' {
            let r = scan_vowels_fwd(text, eix, false);
            r.1 && match_post(post, i + 1, text, r.0)
        } else if q == ':' {
            match_post(post, i + 1, text, scan_consonants_fwd(text, eix))
        } else if q == '^' {
            spec_is_consonant(next) && match_post(post, i + 1, text, eix + 1)
        } else if q == '+' {
            spec_is_front_vowel(next) && match_post(post, i + 1, text, eix + 1)
        } else if q == '%' {
            if next == 'i' {
                eix + 2 < text.len() && text[eix + 1] == 'n' && text[eix + 2] == 'g'
                    && match_post(post, i + 1, text, eix + 3)
            } else if next == 'e' {
                if eix + 1 < text.len() && (text[eix + 1] == 'd' || text[eix + 1] == 'r' || text[eix
                    + 1] == 's') {
                    match_post(post, i + 1, text, eix + 2)
                } else if eix + 2 < text.len() && text[eix + 1] == 'l' && text[eix + 2] == 'y' {
                    match_post(post, i + 1, text, eix + 3)
                } else {
                    match_post(post, i + 1, text, eix + 1)
                }
            } else {
                false
            }
        } else {
            false
        }
    }
}

/// Whether the rest of a rule matches: the left-context pattern `pre` is
/// consumed right to left (position i down to 0) while walking the text
/// backward from position six; once the left context is done, the right
/// context takes over at position eix.  A `:` pattern that runs into the
/// start of the text accepts the whole rule at once, any other pattern
/// there rejects it.  The vowel counter vm carries the surplus of a
/// previous `#` pattern into a directly following one.
pub open spec fn match_rest(
    pre: Seq<char>,
    i: int,
    text: Seq<char>,
    six: int,
    vm: int,
    post: Seq<char>,
    eix: int,
) -> bool
    decreases i,
{
    if i <= 0 {
        match_post(post, 0, text, eix)
    } else {
        let p = pre[i - 1];
        if six == 0 {
            p == ':'
        } else {
            let vm1 = if p != '#' {
                0
            } else {
                vm
            };
            let prev = text[six - 1];
            if spec_is_lower(p) || p == ' ' || p == '\'' {
                prev == p && match_rest(pre, i - 1, text, six - 1, vm1, post, eix)
            } else if p == '#' {
                let r = scan_vowels_back(text, six, vm1);
                r.1 > 0 && match_rest(pre, i - 1, text, r.0, r.1 - 1, post, eix)
            } else if p == ':' {
                match_rest(pre, i - 1, text, scan_consonants_back(text, six), vm1, post, eix)
            } else if p == '^' {
                spec_is_consonant(prev) && match_rest(pre, i - 1, text, six - 1, vm1, post, eix)
            } else if p == '+' {
                spec_is_front_vowel(prev) && match_rest(pre, i - 1, text, six - 1, vm1, post, eix)
            } else if p == '.' {
                spec_is_voiced_consonant(prev) && match_rest(pre, i - 1, text, six - 1, vm1, post, eix)
            } else if p == '&' {
                if prev == 'h' {
                    six >= 3 && (text[six - 2] == 'c' || text[six - 2] == 's') && match_rest(
                        pre,
                        i - 1,
                        text,
                        six - 3,
                        vm1,
                        post,
                        eix,
                    )
                } else {
                    spec_is_sibilant(prev) && match_rest(pre, i - 1, text, six - 1, vm1, post, eix)
                }
            } else if p == '@' {
                if prev == 'h' {
                    six >= 3 && (text[six - 2] == 'c' || text[six - 2] == 's' || text[six - 2]
                        == 't') && match_rest(pre, i - 1, text, six - 3, vm1, post, eix)
                } else {
                    spec_is_long_u_consonant(prev) && match_rest(
                        pre,
                        i - 1,
                        text,
                        six - 1,
                        vm1,
                        post,
                        eix,
                    )
                }
            } else {
                false
            }
        }
    }
}

/// Whether a whole rule matches the text at position ix: the body stands
/// there literally, and the two context patterns accept what is around it.
pub open spec fn rule_matches(r: RuleV, text: Seq<char>, ix: int) -> bool {
    &&& 0 <= ix
    &&& ix + r.body.len() <= text.len()
    &&& text.subrange(ix, ix + r.body.len() as int) == r.body
    &&& match_rest(r.pre, r.pre.len() as int, text, ix, 0, r.post, ix + r.body.len())
}

/// The mathematical content of one rewrite rule.
pub ghost struct RuleV {
    pub pre: Seq<char>,
    pub body: Seq<char>,
    pub post: Seq<char>,
    pub output: Seq<char>,
}

/// One rewrite rule `pre[body]post=output`.
pub struct Rule {
    pre: String,
    body: String,
    post: String,
    output: String,
}

impl View for Rule {
    type V = RuleV;

    closed spec fn view(&self) -> RuleV {
        RuleV { pre: self.pre@, body: self.body@, post: self.post@, output: self.output@ }
    }
}

impl Rule {
    /// Build a rule from its four parts: left context, body, right
    /// context, and phonetic output.
    pub fn new(pre: &str, body: &str, post: &str, output: &str) -> (r: Rule)
        ensures
            r@ == (RuleV { pre: pre@, body: body@, post: post@, output: output@ }),
    {
        Rule {
            pre: String::from_str(pre),
            body: String::from_str(body),
            post: String::from_str(post),
            output: String::from_str(output),
        }
    }

    /// The phonetic output the rule writes when it matches.
    pub fn output(&self) -> (r: &str)
        ensures
            r@ == self@.output,
    {
        self.output.as_str()
    }

    /// The number of text characters the rule consumes when it matches.
    pub fn body_len(&self) -> (n: usize)
        ensures
            n == self@.body.len(),
    {
        self.body.as_str().unicode_len()
    }

    /// Whether the rule matches the text at character position ix.
    pub fn matches(&self, text: &str, ix: usize) -> (b: bool)
        ensures
            b == rule_matches(self@, text@, ix as int),
    {
        let tlen = text.unicode_len();
        let blen = self.body.as_str().unicode_len();
        if blen > tlen || ix > tlen - blen {
            return false;
        }
        // The body must stand at ix literally.
        let mut k: usize = 0;
        while k < blen
            invariant
                tlen == text@.len(),
                blen == self@.body.len(),
                k <= blen,
                blen <= tlen,
                ix <= tlen - blen,
                forall|j: int| 0 <= j < k ==> text@[ix + j] == self@.body[j],
            decreases blen - k,
        {
            if text.get_char(ix + k) != self.body.as_str().get_char(k) {
                proof {
                    assert(text@.subrange(ix as int, ix + blen)[k as int] == text@[ix + k]);
                }
                return false;
            }
            k += 1;
        }
        proof {
            assert(text@.subrange(ix as int, ix + blen) =~= self@.body);
        }
        let ghost full = rule_matches(self@, text@, ix as int);
        // Walk the left context pattern right to left.
        let plen = self.pre.as_str().unicode_len();
        let eix0 = ix + blen;
        let mut pi: usize = plen;
        let mut six: usize = ix;
        let mut vm: usize = 0;
        while pi > 0
            invariant
                tlen == text@.len(),
                blen == self@.body.len(),
                plen == self@.pre.len(),
                ix + blen <= tlen,
                eix0 == ix + blen,
                pi <= plen,
                six + vm <= ix,
                full == rule_matches(self@, text@, ix as int),
                full == match_rest(
                    self@.pre,
                    pi as int,
                    text@,
                    six as int,
                    vm as int,
                    self@.post,
                    eix0 as int,
                ),
            decreases pi,
        {
            let p = self.pre.as_str().get_char(pi - 1);
            if six == 0 {
                return p == ':';
            }
            if p != '#' {
                vm = 0;
            }
            let prev = text.get_char(six - 1);
            if is_lower_c(p) || p == ' ' || p == '\'' {
                if prev != p {
                    return false;
                }
                six -= 1;
            } else if p == '#' {
                let ghost six0 = six as int;
                let ghost vm0 = vm as int;
                while six >= 1 && is_vowel_c(text.get_char(six - 1))
                    invariant
                        tlen == text@.len(),
                        six + vm <= ix,
                        ix <= tlen,
                        scan_vowels_back(text@, six0, vm0) == scan_vowels_back(
                            text@,
                            six as int,
                            vm as int,
                        ),
                    decreases six,
                {
                    six -= 1;
                    if six >= 1 {
                        vm += 1;
                    }
                }
                if vm > 0 {
                    vm -= 1;
                } else {
                    return false;
                }
            } else if p == ':' {
                let ghost six0 = six as int;
                while six >= 1 && is_consonant_c(text.get_char(six - 1))
                    invariant
                        tlen == text@.len(),
                        six + vm <= ix,
                        ix <= tlen,
                        scan_consonants_back(text@, six0) == scan_consonants_back(
                            text@,
                            six as int,
                        ),
                    decreases six,
                {
                    six -= 1;
                }
            } else if p == '^' {
                if !is_consonant_c(prev) {
                    return false;
                }
                six -= 1;
            } else if p == '+' {
                if !is_front_vowel_c(prev) {
                    return false;
                }
                six -= 1;
            } else if p == '.' {
                if !is_voiced_consonant_c(prev) {
                    return false;
                }
                six -= 1;
            } else if p == '&' {
                if prev == 'h' {
                    if six < 3 {
                        return false;
                    }
                    let first = text.get_char(six - 2);
                    if !(first == 'c' || first == 's') {
                        return false;
                    }
                    six -= 3;
                } else {
                    if !is_sibilant_c(prev) {
                        return false;
                    }
                    six -= 1;
                }
            } else if p == '@' {
                if prev == 'h' {
                    if six < 3 {
                        return false;
                    }
                    let first = text.get_char(six - 2);
                    if !(first == 'c' || first == 's' || first == 't') {
                        return false;
                    }
                    six -= 3;
                } else {
                    if !is_long_u_consonant_c(prev) {
                        return false;
                    }
                    six -= 1;
                }
            } else {
                return false;
            }
            pi -= 1;
        }
        // Walk the right context pattern left to right.
        let postlen = self.post.as_str().unicode_len();
        let mut pj: usize = 0;
        let mut eix: usize = eix0;
        while pj < postlen
            invariant
                tlen == text@.len(),
                postlen == self@.post.len(),
                pj <= postlen,
                eix <= tlen,
                full == rule_matches(self@, text@, ix as int),
                full == match_post(self@.post, pj as int, text@, eix as int),
            decreases postlen - pj,
        {
            if eix == tlen {
                return false;
            }
            let q = self.post.as_str().get_char(pj);
            let next = text.get_char(eix);
            if is_lower_c(q) || q == ' ' || q == '\'' {
                if next != q {
                    return false;
                }
                eix += 1;
            } else if q == '#' {
                let ghost eixg = eix as int;
                let mut matched = false;
                proof {
                    assert(scan_vowels_fwd(text@, eixg, false) == scan_vowels_fwd(
                        text@,
                        eix as int,
                        matched,
                    ));
                }
                while eix < tlen && is_vowel_c(text.get_char(eix))
                    invariant
                        tlen == text@.len(),
                        eix <= tlen,
                        scan_vowels_fwd(text@, eixg, false) == scan_vowels_fwd(
                            text@,
                            eix as int,
                            matched,
                        ),
                    decreases tlen - eix,
                {
                    eix += 1;
                    if eix < tlen {
                        matched = true;
                    }
                }
                if !matched {
                    return false;
                }
            } else if q == ':' {
                let ghost eixg = eix as int;
                while eix < tlen && is_consonant_c(text.get_char(eix))
                    invariant
                        tlen == text@.len(),
                        eix <= tlen,
                        scan_consonants_fwd(text@, eixg) == scan_consonants_fwd(text@, eix as int),
                    decreases tlen - eix,
                {
                    eix += 1;
                }
            } else if q == '^' {
                if !is_consonant_c(next) {
                    return false;
                }
                eix += 1;
            } else if q == '+' {
                if !is_front_vowel_c(next) {
                    return false;
                }
                eix += 1;
            } else if q == '%' {
                if next == 'i' {
                    if tlen - eix > 2 && text.get_char(eix + 1) == 'n' && text.get_char(eix + 2)
                        == 'g' {
                        eix += 3;
                    } else {
                        return false;
                    }
                } else if next == 'e' {
                    if tlen - eix > 1 {
                        let c2 = text.get_char(eix + 1);
                        if c2 == 'd' || c2 == 'r' || c2 == 's' {
                            eix += 2;
                        } else if tlen - eix > 2 && c2 == 'l' && text.get_char(eix + 2) == 'y' {
                            eix += 3;
                        } else {
                            eix += 1;
                        }
                    } else {
                        eix += 1;
                    }
                } else {
                    return false;
                }
            } else {
                return false;
            }
            pj += 1;
        }
        true
    }
}

/// The mathematical content of a sequence of rules.
pub open spec fn rules_view(b: Seq<Rule>) -> Seq<RuleV> {
    b.map_values(|r: Rule| r@)
}

/// The first rule, from position k on, that matches the text at ix.
pub open spec fn first_match(rules: Seq<RuleV>, k: int, text: Seq<char>, ix: int) -> Option<RuleV>
    decreases rules.len() - k,
{
    if k < 0 || k >= rules.len() {
        None
    } else if rule_matches(rules[k], text, ix) {
        Some(rules[k])
    } else {
        first_match(rules, k + 1, text, ix)
    }
}

/// A rule that first_match selects does match the text where it was tried.
pub proof fn lemma_first_match_matches(rules: Seq<RuleV>, k: int, text: Seq<char>, ix: int)
    requires
        first_match(rules, k, text, ix) is Some,
    ensures
        rule_matches(first_match(rules, k, text, ix).unwrap(), text, ix),
    decreases rules.len() - k,
{
    if k < 0 || k >= rules.len() {
    } else if rule_matches(rules[k], text, ix) {
    } else {
        lemma_first_match_matches(rules, k + 1, text, ix);
    }
}

/// The alphabet position of a lowercase letter.
pub open spec fn letter_index(c: char) -> int {
    c as u32 - 97
}

/// The translation of the text from character position ix on: spaces
/// between words are kept (except before the end), each stretch of
/// lowercase letters is rewritten by the first matching rule of the
/// letter's bucket, and anything else ends the translation.  A position
/// where no rule matches is stepped over; with the built-in rule table
/// this cannot happen, since every letter has a context-free fallback
/// rule.
pub open spec fn spec_translate_from(rules: Seq<Seq<RuleV>>, text: Seq<char>, ix: int) -> Seq<char>
    decreases text.len() - ix,
{
    if ix < 0 || ix >= text.len() {
        Seq::empty()
    } else {
        let c = text[ix];
        if c == ' ' {
            if ix + 2 < text.len() {
                seq![' '] + spec_translate_from(rules, text, ix + 1)
            } else {
                spec_translate_from(rules, text, ix + 1)
            }
        } else if !spec_is_lower(c) {
            Seq::empty()
        } else {
            match first_match(rules[letter_index(c)], 0, text, ix) {
                Some(r) => {
                    proof {
                        lemma_first_match_matches(rules[letter_index(c)], 0, text, ix);
                    }
                    r.output + spec_translate_from(
                        rules,
                        text,
                        ix + if r.body.len() == 0 {
                            1int
                        } else {
                            r.body.len() as int
                        },
                    )
                },
                None => spec_translate_from(rules, text, ix + 1),
            }
        }
    }
}

/// The translation of a whole text: the original matcher starts one
/// character in, under the convention that normalized input carries a
/// leading space.
pub open spec fn spec_translate(rules: Seq<Seq<RuleV>>, text: Seq<char>) -> Seq<char> {
    spec_translate_from(rules, text, 1)
}

/// Find the first rule in the bucket that matches the text at ix.
fn find_rule<'a>(bucket: &'a Vec<Rule>, text: &str, ix: usize) -> (r: Option<&'a Rule>)
    ensures
        match r {
            Some(rule) => Some(rule@) == first_match(rules_view(bucket@), 0, text@, ix as int),
            None => first_match(rules_view(bucket@), 0, text@, ix as int) is None,
        },
{
    let n = bucket.len();
    let mut k: usize = 0;
    while k < n
        invariant
            n == bucket@.len(),
            k <= n,
            first_match(rules_view(bucket@), 0, text@, ix as int) == first_match(
                rules_view(bucket@),
                k as int,
                text@,
                ix as int,
            ),
        decreases n - k,
    {
        if bucket[k].matches(text, ix) {
            return Some(&bucket[k]);
        }
        k += 1;
    }
    None
}

/// The letter-to-sound rule table: one bucket of rules per letter,
/// tried in order.
pub struct TextToPhoneme {
    alpha_rules: Vec<Vec<Rule>>,
}

impl View for TextToPhoneme {
    type V = Seq<Seq<RuleV>>;

    closed spec fn view(&self) -> Seq<Seq<RuleV>> {
        self.alpha_rules@.map_values(|b: Vec<Rule>| rules_view(b@))
    }
}

impl TextToPhoneme {
    /// The table holds one bucket for each letter of the alphabet.
    pub open spec fn wf(&self) -> bool {
        self@.len() == 26
    }

    /// Translate text to phonemes.
    ///
    /// The input should be normalized: lowercase words separated by
    /// single spaces, with a leading and a trailing space.
    pub fn translate(&self, text: &str) -> (result: String)
        requires
            self.wf(),
        ensures
            result@ == spec_translate(self@, text@),
    {
        let mut result = String::new();
        self.translate_word(text, 1, &mut result);
        proof {
            assert(result@ =~= spec_translate(self@, text@));
        }
        result
    }

    /// Append the translation of the text from character position start
    /// on to the result.
    fn translate_word(&self, text: &str, start: usize, result: &mut String)
        requires
            self.wf(),
        ensures
            final(result)@ == old(result)@ + spec_translate_from(self@, text@, start as int),
    {
        let tlen = text.unicode_len();
        let mut ix = start;
        while ix < tlen
            invariant
                self.wf(),
                tlen == text@.len(),
                old(result)@ + spec_translate_from(self@, text@, start as int) == result@
                    + spec_translate_from(self@, text@, ix as int),
            ensures
                result@ == old(result)@ + spec_translate_from(self@, text@, start as int),
            decreases tlen - ix,
        {
            let ghost prefix = result@;
            let ghost ixg = ix as int;
            let c = text.get_char(ix);
            if c == ' ' {
                ix += 1;
                if ix < tlen - 1 {
                    result.append(" ");
                    proof {
                        reveal_strlit(" ");
                        assert(result@ =~= prefix + seq![' ']);
                        assert(prefix + (seq![' '] + spec_translate_from(self@, text@, ix as int))
                            =~= result@ + spec_translate_from(self@, text@, ix as int));
                    }
                }
            } else if !is_lower_c(c) {
                proof {
                    assert(result@ + spec_translate_from(self@, text@, ix as int) =~= result@);
                }
                break ;
            } else {
                let li = (c as u32 - 97) as usize;
                proof {
                    assert(li == letter_index(c));
                    assert(self@[li as int] == rules_view(self.alpha_rules@[li as int]@));
                }
                match find_rule(&self.alpha_rules[li], text, ix) {
                    Some(rule) => {
                        proof {
                            lemma_first_match_matches(self@[li as int], 0, text@, ix as int);
                        }
                        result.append(rule.output());
                        let bl = rule.body_len();
                        if bl == 0 {
                            ix += 1;
                        } else {
                            ix += bl;
                        }
                        proof {
                            assert(prefix + (rule@.output + spec_translate_from(
                                self@,
                                text@,
                                ix as int,
                            )) =~= result@ + spec_translate_from(self@, text@, ix as int));
                        }
                    },
                    None => {
                        ix += 1;
                    },
                }
            }
        }
    }
}


// The rules below were adapted closely from Elovitz et al., with tweaks.
// The output is a concise IPA.  Each bucket holds the rules whose body
// starts with one letter, in the order they are tried.

/// The parsed rules for bodies starting with a.
pub open spec fn spec_rules_a() -> Seq<RuleV> {
    seq![
        RuleV { pre: ""@, body: "a"@, post: " "@, output: "ə"@ },
        RuleV { pre: " "@, body: "are"@, post: " "@, output: "ɑɹ"@ },
        RuleV { pre: " "@, body: "ar"@, post: "o"@, output: "əɹ"@ },
        RuleV { pre: ""@, body: "ar"@, post: "#"@, output: "ɛɹ"@ },
        RuleV { pre: " ^"@, body: "as"@, post: "#"@, output: "ɛɪs"@ },
        RuleV { pre: ""@, body: "a"@, post: "wa"@, output: "ə"@ },
        RuleV { pre: ""@, body: "aw"@, post: ""@, output: "ɔ"@ },
        RuleV { pre: " :"@, body: "any"@, post: ""@, output: "ɛni"@ },
        RuleV { pre: ""@, body: "a"@, post: "^+#"@, output: "ɛɪ"@ },
        RuleV { pre: "#:"@, body: "ally"@, post: ""@, output: "əli"@ },
        RuleV { pre: "^"@, body: "al"@, post: "m"@, output: "ɑ"@ },
        RuleV { pre: " "@, body: "al"@, post: "#"@, output: "əl"@ },
        RuleV { pre: ""@, body: "again"@, post: ""@, output: "əgɛn"@ },
        RuleV { pre: "#:"@, body: "ag"@, post: "e"@, output: "ɪdʒ"@ },
        RuleV { pre: ""@, body: "a"@, post: "+%"@, output: "ɛɪ"@ },
        RuleV { pre: ""@, body: "a"@, post: "^+:#"@, output: "æ"@ },
        RuleV { pre: " :"@, body: "a"@, post: "^+ "@, output: "ɛɪ"@ },
        RuleV { pre: ""@, body: "a"@, post: "^%"@, output: "ɛɪ"@ },
        RuleV { pre: " "@, body: "arr"@, post: ""@, output: "əɹ"@ },
        RuleV { pre: ""@, body: "arr"@, post: ""@, output: "æɹ"@ },
        RuleV { pre: " :"@, body: "ar"@, post: " "@, output: "ɑɹ"@ },
        RuleV { pre: ""@, body: "ar"@, post: " "@, output: "ɚ"@ },
        RuleV { pre: ""@, body: "ar"@, post: ""@, output: "ɑɹ"@ },
        RuleV { pre: ""@, body: "air"@, post: ""@, output: "ɛɹ"@ },
        RuleV { pre: ""@, body: "ai"@, post: ""@, output: "ɛɪ"@ },
        RuleV { pre: ""@, body: "ay"@, post: ""@, output: "ɛɪ"@ },
        RuleV { pre: ""@, body: "au"@, post: ""@, output: "ɔ"@ },
        RuleV { pre: "#:"@, body: "al"@, post: ""@, output: "əl"@ },
        RuleV { pre: ""@, body: "alk"@, post: ""@, output: "ɔk"@ },
        RuleV { pre: ""@, body: "al"@, post: "^"@, output: "ɔl"@ },
        RuleV { pre: " :"@, body: "able"@, post: ""@, output: "ɛɪbəl"@ },
        RuleV { pre: ""@, body: "able"@, post: ""@, output: "əbəl"@ },
        RuleV { pre: ""@, body: "ang"@, post: "+"@, output: "ɛɪndʒ"@ },
        RuleV { pre: ""@, body: "a"@, post: ""@, output: "æ"@ },
    ]
}

/// Build the rule bucket for the letter a.
fn rules_a() -> (v: Vec<Rule>)
    ensures
        rules_view(v@) == spec_rules_a(),
{
    let mut v: Vec<Rule> = Vec::new();
    v.push(Rule::new("", "a", " ", "ə"));
    v.push(Rule::new(" ", "are", " ", "ɑɹ"));
    v.push(Rule::new(" ", "ar", "o", "əɹ"));
    v.push(Rule::new("", "ar", "#", "ɛɹ"));
    v.push(Rule::new(" ^", "as", "#", "ɛɪs"));
    v.push(Rule::new("", "a", "wa", "ə"));
    v.push(Rule::new("", "aw", "", "ɔ"));
    v.push(Rule::new(" :", "any", "", "ɛni"));
    v.push(Rule::new("", "a", "^+#", "ɛɪ"));
    v.push(Rule::new("#:", "ally", "", "əli"));
    v.push(Rule::new("^", "al", "m", "ɑ"));
    v.push(Rule::new(" ", "al", "#", "əl"));
    v.push(Rule::new("", "again", "", "əgɛn"));
    v.push(Rule::new("#:", "ag", "e", "ɪdʒ"));
    v.push(Rule::new("", "a", "+%", "ɛɪ"));
    v.push(Rule::new("", "a", "^+:#", "æ"));
    v.push(Rule::new(" :", "a", "^+ ", "ɛɪ"));
    v.push(Rule::new("", "a", "^%", "ɛɪ"));
    v.push(Rule::new(" ", "arr", "", "əɹ"));
    v.push(Rule::new("", "arr", "", "æɹ"));
    v.push(Rule::new(" :", "ar", " ", "ɑɹ"));
    v.push(Rule::new("", "ar", " ", "ɚ"));
    v.push(Rule::new("", "ar", "", "ɑɹ"));
    v.push(Rule::new("", "air", "", "ɛɹ"));
    v.push(Rule::new("", "ai", "", "ɛɪ"));
    v.push(Rule::new("", "ay", "", "ɛɪ"));
    v.push(Rule::new("", "au", "", "ɔ"));
    v.push(Rule::new("#:", "al", "", "əl"));
    v.push(Rule::new("", "alk", "", "ɔk"));
    v.push(Rule::new("", "al", "^", "ɔl"));
    v.push(Rule::new(" :", "able", "", "ɛɪbəl"));
    v.push(Rule::new("", "able", "", "əbəl"));
    v.push(Rule::new("", "ang", "+", "ɛɪndʒ"));
    v.push(Rule::new("", "a", "", "æ"));
    proof {
        assert(rules_view(v@) =~= spec_rules_a());
    }
    v
}

/// The parsed rules for bodies starting with b.
pub open spec fn spec_rules_b() -> Seq<RuleV> {
    seq![
        RuleV { pre: " "@, body: "be"@, post: "^#"@, output: "bɪ"@ },
        RuleV { pre: ""@, body: "being"@, post: ""@, output: "biɪŋ"@ },
        RuleV { pre: " "@, body: "both"@, post: ""@, output: "boθ"@ },
        RuleV { pre: " "@, body: "bus"@, post: "#"@, output: "bɪz"@ },
        RuleV { pre: ""@, body: "buil"@, post: ""@, output: "bɪl"@ },
        RuleV { pre: ""@, body: "b"@, post: ""@, output: "b"@ },
    ]
}

/// Build the rule bucket for the letter b.
fn rules_b() -> (v: Vec<Rule>)
    ensures
        rules_view(v@) == spec_rules_b(),
{
    let mut v: Vec<Rule> = Vec::new();
    v.push(Rule::new(" ", "be", "^#", "bɪ"));
    v.push(Rule::new("", "being", "", "biɪŋ"));
    v.push(Rule::new(" ", "both", "", "boθ"));
    v.push(Rule::new(" ", "bus", "#", "bɪz"));
    v.push(Rule::new("", "buil", "", "bɪl"));
    v.push(Rule::new("", "b", "", "b"));
    proof {
        assert(rules_view(v@) =~= spec_rules_b());
    }
    v
}

/// The parsed rules for bodies starting with c.
pub open spec fn spec_rules_c() -> Seq<RuleV> {
    seq![
        RuleV { pre: " "@, body: "ch"@, post: "^"@, output: "k"@ },
        RuleV { pre: "^e"@, body: "ch"@, post: ""@, output: "k"@ },
        RuleV { pre: ""@, body: "ch"@, post: ""@, output: "tʃ"@ },
        RuleV { pre: " s"@, body: "ci"@, post: "#"@, output: "saɪ"@ },
        RuleV { pre: ""@, body: "ci"@, post: "a"@, output: "ʃ"@ },
        RuleV { pre: ""@, body: "ci"@, post: "o"@, output: "ʃ"@ },
        RuleV { pre: ""@, body: "ci"@, post: "en"@, output: "ʃ"@ },
        RuleV { pre: ""@, body: "c"@, post: "+"@, output: "s"@ },
        RuleV { pre: ""@, body: "ck"@, post: ""@, output: "k"@ },
        RuleV { pre: ""@, body: "comfor"@, post: ""@, output: "kʌmfɚ"@ },
        RuleV { pre: ""@, body: "com"@, post: "%"@, output: "kʌm"@ },
        RuleV { pre: ""@, body: "c"@, post: ""@, output: "k"@ },
    ]
}

/// Build the rule bucket for the letter c.
fn rules_c() -> (v: Vec<Rule>)
    ensures
        rules_view(v@) == spec_rules_c(),
{
    let mut v: Vec<Rule> = Vec::new();
    v.push(Rule::new(" ", "ch", "^", "k"));
    v.push(Rule::new("^e", "ch", "", "k"));
    v.push(Rule::new("", "ch", "", "tʃ"));
    v.push(Rule::new(" s", "ci", "#", "saɪ"));
    v.push(Rule::new("", "ci", "a", "ʃ"));
    v.push(Rule::new("", "ci", "o", "ʃ"));
    v.push(Rule::new("", "ci", "en", "ʃ"));
    v.push(Rule::new("", "c", "+", "s"));
    v.push(Rule::new("", "ck", "", "k"));
    v.push(Rule::new("", "comfor", "", "kʌmfɚ"));
    v.push(Rule::new("", "com", "%", "kʌm"));
    v.push(Rule::new("", "c", "", "k"));
    proof {
        assert(rules_view(v@) =~= spec_rules_c());
    }
    v
}

/// The parsed rules for bodies starting with d.
pub open spec fn spec_rules_d() -> Seq<RuleV> {
    seq![
        RuleV { pre: "#:"@, body: "ded"@, post: " "@, output: "dɪd"@ },
        RuleV { pre: ".e"@, body: "d"@, post: " "@, output: "d"@ },
        RuleV { pre: "#:^e"@, body: "d"@, post: " "@, output: "t"@ },
        RuleV { pre: " "@, body: "de"@, post: "^#"@, output: "dɪ"@ },
        RuleV { pre: " "@, body: "do"@, post: " "@, output: "du"@ },
        RuleV { pre: " "@, body: "does"@, post: ""@, output: "dʌz"@ },
        RuleV { pre: " "@, body: "doing"@, post: ""@, output: "duɪŋ"@ },
        RuleV { pre: " "@, body: "dow"@, post: ""@, output: "daw"@ },
        RuleV { pre: ""@, body: "du"@, post: "a"@, output: "dʒu"@ },
        RuleV { pre: ""@, body: "d"@, post: ""@, output: "d"@ },
    ]
}

/// Build the rule bucket for the letter d.
fn rules_d() -> (v: Vec<Rule>)
    ensures
        rules_view(v@) == spec_rules_d(),
{
    let mut v: Vec<Rule> = Vec::new();
    v.push(Rule::new("#:", "ded", " ", "dɪd"));
    v.push(Rule::new(".e", "d", " ", "d"));
    v.push(Rule::new("#:^e", "d", " ", "t"));
    v.push(Rule::new(" ", "de", "^#", "dɪ"));
    v.push(Rule::new(" ", "do", " ", "du"));
    v.push(Rule::new(" ", "does", "", "dʌz"));
    v.push(Rule::new(" ", "doing", "", "duɪŋ"));
    v.push(Rule::new(" ", "dow", "", "daw"));
    v.push(Rule::new("", "du", "a", "dʒu"));
    v.push(Rule::new("", "d", "", "d"));
    proof {
        assert(rules_view(v@) =~= spec_rules_d());
    }
    v
}

/// The parsed rules for bodies starting with e.
pub open spec fn spec_rules_e() -> Seq<RuleV> {
    seq![
        RuleV { pre: "#:"@, body: "e"@, post: " "@, output: ""@ },
        RuleV { pre: "' :^"@, body: "e"@, post: " "@, output: ""@ },
        RuleV { pre: " :"@, body: "e"@, post: " "@, output: "i"@ },
        RuleV { pre: "#"@, body: "ed"@, post: " "@, output: "d"@ },
        RuleV { pre: "#:"@, body: "e"@, post: "d "@, output: ""@ },
        RuleV { pre: ""@, body: "ev"@, post: "er"@, output: "ɛv"@ },
        RuleV { pre: "g"@, body: "e"@, post: "ner"@, output: "ɛ"@ },
        RuleV { pre: "^#:"@, body: "ement"@, post: ""@, output: "mɛnt"@ },
        RuleV { pre: ""@, body: "e"@, post: "^%"@, output: "i"@ },
        RuleV { pre: ""@, body: "eri"@, post: "#"@, output: "iɹi"@ },
        RuleV { pre: ""@, body: "eri"@, post: ""@, output: "ɛɹi"@ },
        RuleV { pre: "#:"@, body: "er"@, post: "#"@, output: "ɚ"@ },
        RuleV { pre: ""@, body: "er"@, post: "#"@, output: "ɛɹ"@ },
        RuleV { pre: ""@, body: "er"@, post: ""@, output: "ɚ"@ },
        RuleV { pre: " "@, body: "even"@, post: ""@, output: "ivɛn"@ },
        RuleV { pre: "#:"@, body: "e"@, post: "w"@, output: ""@ },
        RuleV { pre: "@"@, body: "ew"@, post: ""@, output: "u"@ },
        RuleV { pre: ""@, body: "ew"@, post: ""@, output: "ju"@ },
        RuleV { pre: ""@, body: "e"@, post: "o"@, output: "i"@ },
        RuleV { pre: "#:&"@, body: "es"@, post: " "@, output: "ɪz"@ },
        RuleV { pre: "#:"@, body: "e"@, post: "s "@, output: ""@ },
        RuleV { pre: "#:"@, body: "ely"@, post: " "@, output: "li"@ },
        RuleV { pre: ""@, body: "eful"@, post: ""@, output: "fʊl"@ },
        RuleV { pre: ""@, body: "ee"@, post: ""@, output: "i"@ },
        RuleV { pre: ""@, body: "earn"@, post: ""@, output: "ɚn"@ },
        RuleV { pre: " "@, body: "ear"@, post: "^"@, output: "ɚ"@ },
        RuleV { pre: ""@, body: "ead"@, post: ""@, output: "ɛd"@ },
        RuleV { pre: "#:"@, body: "ea"@, post: ""@, output: "iə"@ },
        RuleV { pre: ""@, body: "ea"@, post: "su"@, output: "ɛ"@ },
        RuleV { pre: ""@, body: "ea"@, post: "lth"@, output: "ɛ"@ },
        RuleV { pre: ""@, body: "ea"@, post: ""@, output: "i"@ },
        RuleV { pre: ""@, body: "eigh"@, post: ""@, output: "ɛɪ"@ },
        RuleV { pre: ""@, body: "ei"@, post: ""@, output: "i"@ },
        RuleV { pre: " "@, body: "eye"@, post: ""@, output: "aɪ"@ },
        RuleV { pre: ""@, body: "ey"@, post: ""@, output: "i"@ },
        RuleV { pre: ""@, body: "eu"@, post: ""@, output: "ju"@ },
        RuleV { pre: ""@, body: "e"@, post: ""@, output: "ɛ"@ },
    ]
}

/// Build the rule bucket for the letter e.
fn rules_e() -> (v: Vec<Rule>)
    ensures
        rules_view(v@) == spec_rules_e(),
{
    let mut v: Vec<Rule> = Vec::new();
    v.push(Rule::new("#:", "e", " ", ""));
    v.push(Rule::new("' :^", "e", " ", ""));
    v.push(Rule::new(" :", "e", " ", "i"));
    v.push(Rule::new("#", "ed", " ", "d"));
    v.push(Rule::new("#:", "e", "d ", ""));
    v.push(Rule::new("", "ev", "er", "ɛv"));
    v.push(Rule::new("g", "e", "ner", "ɛ"));
    v.push(Rule::new("^#:", "ement", "", "mɛnt"));
    v.push(Rule::new("", "e", "^%", "i"));
    v.push(Rule::new("", "eri", "#", "iɹi"));
    v.push(Rule::new("", "eri", "", "ɛɹi"));
    v.push(Rule::new("#:", "er", "#", "ɚ"));
    v.push(Rule::new("", "er", "#", "ɛɹ"));
    v.push(Rule::new("", "er", "", "ɚ"));
    v.push(Rule::new(" ", "even", "", "ivɛn"));
    v.push(Rule::new("#:", "e", "w", ""));
    v.push(Rule::new("@", "ew", "", "u"));
    v.push(Rule::new("", "ew", "", "ju"));
    v.push(Rule::new("", "e", "o", "i"));
    v.push(Rule::new("#:&", "es", " ", "ɪz"));
    v.push(Rule::new("#:", "e", "s ", ""));
    v.push(Rule::new("#:", "ely", " ", "li"));
    v.push(Rule::new("", "eful", "", "fʊl"));
    v.push(Rule::new("", "ee", "", "i"));
    v.push(Rule::new("", "earn", "", "ɚn"));
    v.push(Rule::new(" ", "ear", "^", "ɚ"));
    v.push(Rule::new("", "ead", "", "ɛd"));
    v.push(Rule::new("#:", "ea", "", "iə"));
    v.push(Rule::new("", "ea", "su", "ɛ"));
    v.push(Rule::new("", "ea", "lth", "ɛ"));
    v.push(Rule::new("", "ea", "", "i"));
    v.push(Rule::new("", "eigh", "", "ɛɪ"));
    v.push(Rule::new("", "ei", "", "i"));
    v.push(Rule::new(" ", "eye", "", "aɪ"));
    v.push(Rule::new("", "ey", "", "i"));
    v.push(Rule::new("", "eu", "", "ju"));
    v.push(Rule::new("", "e", "", "ɛ"));
    proof {
        assert(rules_view(v@) =~= spec_rules_e());
    }
    v
}

/// The parsed rules for bodies starting with f.
pub open spec fn spec_rules_f() -> Seq<RuleV> {
    seq![
        RuleV { pre: ""@, body: "ful"@, post: ""@, output: "fʊl"@ },
        RuleV { pre: ""@, body: "f"@, post: ""@, output: "f"@ },
    ]
}

/// Build the rule bucket for the letter f.
fn rules_f() -> (v: Vec<Rule>)
    ensures
        rules_view(v@) == spec_rules_f(),
{
    let mut v: Vec<Rule> = Vec::new();
    v.push(Rule::new("", "ful", "", "fʊl"));
    v.push(Rule::new("", "f", "", "f"));
    proof {
        assert(rules_view(v@) =~= spec_rules_f());
    }
    v
}

/// The parsed rules for bodies starting with g.
pub open spec fn spec_rules_g() -> Seq<RuleV> {
    seq![
        RuleV { pre: ""@, body: "giv"@, post: ""@, output: "gɪv"@ },
        RuleV { pre: " "@, body: "g"@, post: "i^"@, output: "g"@ },
        RuleV { pre: ""@, body: "ge"@, post: "t"@, output: "gɛ"@ },
        RuleV { pre: "su"@, body: "gges"@, post: ""@, output: "dʒɛs"@ },
        RuleV { pre: ""@, body: "gg"@, post: ""@, output: "g"@ },
        RuleV { pre: " b#"@, body: "g"@, post: ""@, output: "g"@ },
        RuleV { pre: ""@, body: "g"@, post: "+"@, output: "dʒ"@ },
        RuleV { pre: ""@, body: "great"@, post: ""@, output: "gɹɛɪt"@ },
        RuleV { pre: "#"@, body: "gh"@, post: ""@, output: ""@ },
        RuleV { pre: ""@, body: "g"@, post: ""@, output: "g"@ },
    ]
}

/// Build the rule bucket for the letter g.
fn rules_g() -> (v: Vec<Rule>)
    ensures
        rules_view(v@) == spec_rules_g(),
{
    let mut v: Vec<Rule> = Vec::new();
    v.push(Rule::new("", "giv", "", "gɪv"));
    v.push(Rule::new(" ", "g", "i^", "g"));
    v.push(Rule::new("", "ge", "t", "gɛ"));
    v.push(Rule::new("su", "gges", "", "dʒɛs"));
    v.push(Rule::new("", "gg", "", "g"));
    v.push(Rule::new(" b#", "g", "", "g"));
    v.push(Rule::new("", "g", "+", "dʒ"));
    v.push(Rule::new("", "great", "", "gɹɛɪt"));
    v.push(Rule::new("#", "gh", "", ""));
    v.push(Rule::new("", "g", "", "g"));
    proof {
        assert(rules_view(v@) =~= spec_rules_g());
    }
    v
}

/// The parsed rules for bodies starting with h.
pub open spec fn spec_rules_h() -> Seq<RuleV> {
    seq![
        RuleV { pre: " "@, body: "hav"@, post: ""@, output: "hæv"@ },
        RuleV { pre: " "@, body: "here"@, post: ""@, output: "hiɹ"@ },
        RuleV { pre: " "@, body: "hour"@, post: ""@, output: "awɚ"@ },
        RuleV { pre: ""@, body: "how"@, post: ""@, output: "haw"@ },
        RuleV { pre: ""@, body: "h"@, post: "#"@, output: "h"@ },
        RuleV { pre: ""@, body: "h"@, post: ""@, output: ""@ },
    ]
}

/// Build the rule bucket for the letter h.
fn rules_h() -> (v: Vec<Rule>)
    ensures
        rules_view(v@) == spec_rules_h(),
{
    let mut v: Vec<Rule> = Vec::new();
    v.push(Rule::new(" ", "hav", "", "hæv"));
    v.push(Rule::new(" ", "here", "", "hiɹ"));
    v.push(Rule::new(" ", "hour", "", "awɚ"));
    v.push(Rule::new("", "how", "", "haw"));
    v.push(Rule::new("", "h", "#", "h"));
    v.push(Rule::new("", "h", "", ""));
    proof {
        assert(rules_view(v@) =~= spec_rules_h());
    }
    v
}

/// The parsed rules for bodies starting with i.
pub open spec fn spec_rules_i() -> Seq<RuleV> {
    seq![
        RuleV { pre: " "@, body: "in"@, post: ""@, output: "ɪn"@ },
        RuleV { pre: " "@, body: "i"@, post: " "@, output: "aɪ"@ },
        RuleV { pre: ""@, body: "in"@, post: "d"@, output: "aɪn"@ },
        RuleV { pre: ""@, body: "ier"@, post: ""@, output: "iɹ"@ },
        RuleV { pre: "#:r"@, body: "ied"@, post: " "@, output: "id"@ },
        RuleV { pre: ""@, body: "ied"@, post: " "@, output: "aɪd"@ },
        RuleV { pre: "fr"@, body: "ien"@, post: ""@, output: "ɛn"@ },
        RuleV { pre: ""@, body: "ien"@, post: ""@, output: "iɛn"@ },
        RuleV { pre: ""@, body: "ie"@, post: "t"@, output: "aɪɛ"@ },
        RuleV { pre: " :"@, body: "i"@, post: "%"@, output: "aɪ"@ },
        RuleV { pre: ""@, body: "i"@, post: "%"@, output: "i"@ },
        RuleV { pre: ""@, body: "ie"@, post: ""@, output: "i"@ },
        RuleV { pre: ""@, body: "i"@, post: "^+:#"@, output: "ɪ"@ },
        RuleV { pre: ""@, body: "ir"@, post: "#"@, output: "aɪɹ"@ },
        RuleV { pre: ""@, body: "iz"@, post: "%"@, output: "aɪz"@ },
        RuleV { pre: ""@, body: "is"@, post: "%"@, output: "aɪz"@ },
        RuleV { pre: ""@, body: "i"@, post: "d%"@, output: "aɪ"@ },
        RuleV { pre: "+^"@, body: "i"@, post: "^"@, output: "ɪ"@ },
        RuleV { pre: ""@, body: "i"@, post: "t%"@, output: "aɪ"@ },
        RuleV { pre: "#:^"@, body: "i"@, post: "^+"@, output: "ɪ"@ },
        RuleV { pre: ""@, body: "i"@, post: "^+"@, output: "aɪ"@ },
        RuleV { pre: ""@, body: "ir"@, post: ""@, output: "ɚ"@ },
        RuleV { pre: ""@, body: "igh"@, post: ""@, output: "aɪ"@ },
        RuleV { pre: ""@, body: "ild"@, post: ""@, output: "aɪld"@ },
        RuleV { pre: ""@, body: "ign"@, post: " "@, output: "aɪn"@ },
        RuleV { pre: ""@, body: "ign"@, post: "^"@, output: "aɪn"@ },
        RuleV { pre: ""@, body: "ign"@, post: "%"@, output: "aɪn"@ },
        RuleV { pre: ""@, body: "ique"@, post: ""@, output: "ik"@ },
        RuleV { pre: ""@, body: "i"@, post: ""@, output: "ɪ"@ },
    ]
}

/// Build the rule bucket for the letter i.
fn rules_i() -> (v: Vec<Rule>)
    ensures
        rules_view(v@) == spec_rules_i(),
{
    let mut v: Vec<Rule> = Vec::new();
    v.push(Rule::new(" ", "in", "", "ɪn"));
    v.push(Rule::new(" ", "i", " ", "aɪ"));
    v.push(Rule::new("", "in", "d", "aɪn"));
    v.push(Rule::new("", "ier", "", "iɹ"));
    v.push(Rule::new("#:r", "ied", " ", "id"));
    v.push(Rule::new("", "ied", " ", "aɪd"));
    v.push(Rule::new("fr", "ien", "", "ɛn"));
    v.push(Rule::new("", "ien", "", "iɛn"));
    v.push(Rule::new("", "ie", "t", "aɪɛ"));
    v.push(Rule::new(" :", "i", "%", "aɪ"));
    v.push(Rule::new("", "i", "%", "i"));
    v.push(Rule::new("", "ie", "", "i"));
    v.push(Rule::new("", "i", "^+:#", "ɪ"));
    v.push(Rule::new("", "ir", "#", "aɪɹ"));
    v.push(Rule::new("", "iz", "%", "aɪz"));
    v.push(Rule::new("", "is", "%", "aɪz"));
    v.push(Rule::new("", "i", "d%", "aɪ"));
    v.push(Rule::new("+^", "i", "^", "ɪ"));
    v.push(Rule::new("", "i", "t%", "aɪ"));
    v.push(Rule::new("#:^", "i", "^+", "ɪ"));
    v.push(Rule::new("", "i", "^+", "aɪ"));
    v.push(Rule::new("", "ir", "", "ɚ"));
    v.push(Rule::new("", "igh", "", "aɪ"));
    v.push(Rule::new("", "ild", "", "aɪld"));
    v.push(Rule::new("", "ign", " ", "aɪn"));
    v.push(Rule::new("", "ign", "^", "aɪn"));
    v.push(Rule::new("", "ign", "%", "aɪn"));
    v.push(Rule::new("", "ique", "", "ik"));
    v.push(Rule::new("", "i", "", "ɪ"));
    proof {
        assert(rules_view(v@) =~= spec_rules_i());
    }
    v
}

/// The parsed rules for bodies starting with j.
pub open spec fn spec_rules_j() -> Seq<RuleV> {
    seq![
        RuleV { pre: ""@, body: "j"@, post: ""@, output: "dʒ"@ },
    ]
}

/// Build the rule bucket for the letter j.
fn rules_j() -> (v: Vec<Rule>)
    ensures
        rules_view(v@) == spec_rules_j(),
{
    let mut v: Vec<Rule> = Vec::new();
    v.push(Rule::new("", "j", "", "dʒ"));
    proof {
        assert(rules_view(v@) =~= spec_rules_j());
    }
    v
}

/// The parsed rules for bodies starting with k.
pub open spec fn spec_rules_k() -> Seq<RuleV> {
    seq![
        RuleV { pre: " "@, body: "k"@, post: "n"@, output: ""@ },
        RuleV { pre: ""@, body: "k"@, post: ""@, output: "k"@ },
    ]
}

/// Build the rule bucket for the letter k.
fn rules_k() -> (v: Vec<Rule>)
    ensures
        rules_view(v@) == spec_rules_k(),
{
    let mut v: Vec<Rule> = Vec::new();
    v.push(Rule::new(" ", "k", "n", ""));
    v.push(Rule::new("", "k", "", "k"));
    proof {
        assert(rules_view(v@) =~= spec_rules_k());
    }
    v
}

/// The parsed rules for bodies starting with l.
pub open spec fn spec_rules_l() -> Seq<RuleV> {
    seq![
        RuleV { pre: ""@, body: "lo"@, post: "c#"@, output: "lo"@ },
        RuleV { pre: "l"@, body: "l"@, post: ""@, output: ""@ },
        RuleV { pre: "#:^"@, body: "l"@, post: "%"@, output: "əl"@ },
        RuleV { pre: ""@, body: "lead"@, post: ""@, output: "lid"@ },
        RuleV { pre: ""@, body: "l"@, post: ""@, output: "l"@ },
    ]
}

/// Build the rule bucket for the letter l.
fn rules_l() -> (v: Vec<Rule>)
    ensures
        rules_view(v@) == spec_rules_l(),
{
    let mut v: Vec<Rule> = Vec::new();
    v.push(Rule::new("", "lo", "c#", "lo"));
    v.push(Rule::new("l", "l", "", ""));
    v.push(Rule::new("#:^", "l", "%", "əl"));
    v.push(Rule::new("", "lead", "", "lid"));
    v.push(Rule::new("", "l", "", "l"));
    proof {
        assert(rules_view(v@) =~= spec_rules_l());
    }
    v
}

/// The parsed rules for bodies starting with m.
pub open spec fn spec_rules_m() -> Seq<RuleV> {
    seq![
        RuleV { pre: ""@, body: "mov"@, post: ""@, output: "muv"@ },
        RuleV { pre: ""@, body: "m"@, post: ""@, output: "m"@ },
    ]
}

/// Build the rule bucket for the letter m.
fn rules_m() -> (v: Vec<Rule>)
    ensures
        rules_view(v@) == spec_rules_m(),
{
    let mut v: Vec<Rule> = Vec::new();
    v.push(Rule::new("", "mov", "", "muv"));
    v.push(Rule::new("", "m", "", "m"));
    proof {
        assert(rules_view(v@) =~= spec_rules_m());
    }
    v
}

/// The parsed rules for bodies starting with n.
pub open spec fn spec_rules_n() -> Seq<RuleV> {
    seq![
        RuleV { pre: "e"@, body: "ng"@, post: "+"@, output: "ndʒ"@ },
        RuleV { pre: ""@, body: "ng"@, post: "r"@, output: "ŋg"@ },
        RuleV { pre: ""@, body: "ng"@, post: "#"@, output: "ŋg"@ },
        RuleV { pre: ""@, body: "ngl"@, post: "%"@, output: "ŋgəl"@ },
        RuleV { pre: ""@, body: "ng"@, post: ""@, output: "ŋ"@ },
        RuleV { pre: ""@, body: "nk"@, post: ""@, output: "ŋk"@ },
        RuleV { pre: " "@, body: "now"@, post: " "@, output: "naw"@ },
        RuleV { pre: ""@, body: "n"@, post: ""@, output: "n"@ },
    ]
}

/// Build the rule bucket for the letter n.
fn rules_n() -> (v: Vec<Rule>)
    ensures
        rules_view(v@) == spec_rules_n(),
{
    let mut v: Vec<Rule> = Vec::new();
    v.push(Rule::new("e", "ng", "+", "ndʒ"));
    v.push(Rule::new("", "ng", "r", "ŋg"));
    v.push(Rule::new("", "ng", "#", "ŋg"));
    v.push(Rule::new("", "ngl", "%", "ŋgəl"));
    v.push(Rule::new("", "ng", "", "ŋ"));
    v.push(Rule::new("", "nk", "", "ŋk"));
    v.push(Rule::new(" ", "now", " ", "naw"));
    v.push(Rule::new("", "n", "", "n"));
    proof {
        assert(rules_view(v@) =~= spec_rules_n());
    }
    v
}

/// The parsed rules for bodies starting with o.
pub open spec fn spec_rules_o() -> Seq<RuleV> {
    seq![
        RuleV { pre: ""@, body: "of"@, post: " "@, output: "əv"@ },
        RuleV { pre: ""@, body: "orough"@, post: ""@, output: "ɚo"@ },
        RuleV { pre: "w"@, body: "or"@, post: "t"@, output: "ɚ"@ },
        RuleV { pre: ""@, body: "or"@, post: "t"@, output: "ɔɹ"@ },
        RuleV { pre: "#:"@, body: "or"@, post: ""@, output: "ɚ"@ },
        RuleV { pre: "#:"@, body: "ors"@, post: ""@, output: "ɚz"@ },
        RuleV { pre: ""@, body: "or"@, post: ""@, output: "ɔɹ"@ },
        RuleV { pre: " "@, body: "one"@, post: ""@, output: "wʌn"@ },
        RuleV { pre: ""@, body: "ow"@, post: ""@, output: "o"@ },
        RuleV { pre: " "@, body: "over"@, post: ""@, output: "ovɚ"@ },
        RuleV { pre: ""@, body: "ov"@, post: ""@, output: "ʌv"@ },
        RuleV { pre: ""@, body: "o"@, post: "^%"@, output: "o"@ },
        RuleV { pre: ""@, body: "o"@, post: "^en"@, output: "o"@ },
        RuleV { pre: ""@, body: "o"@, post: "^i#"@, output: "o"@ },
        RuleV { pre: ""@, body: "ol"@, post: "d"@, output: "ol"@ },
        RuleV { pre: ""@, body: "ought"@, post: ""@, output: "ɔt"@ },
        RuleV { pre: ""@, body: "ough"@, post: ""@, output: "əf"@ },
        RuleV { pre: " "@, body: "ou"@, post: ""@, output: "aw"@ },
        RuleV { pre: "h"@, body: "ou"@, post: "s#"@, output: "aw"@ },
        RuleV { pre: ""@, body: "ous"@, post: ""@, output: "əs"@ },
        RuleV { pre: ""@, body: "our"@, post: ""@, output: "ɔɹ"@ },
        RuleV { pre: ""@, body: "ould"@, post: ""@, output: "ʊd"@ },
        RuleV { pre: "^"@, body: "ou"@, post: "^l"@, output: "ʌ"@ },
        RuleV { pre: ""@, body: "oup"@, post: ""@, output: "up"@ },
        RuleV { pre: ""@, body: "ou"@, post: ""@, output: "aw"@ },
        RuleV { pre: ""@, body: "oy"@, post: ""@, output: "ɔɪ"@ },
        RuleV { pre: ""@, body: "oing"@, post: ""@, output: "oɪŋ"@ },
        RuleV { pre: ""@, body: "oi"@, post: ""@, output: "ɔɪ"@ },
        RuleV { pre: ""@, body: "oor"@, post: ""@, output: "ɔɹ"@ },
        RuleV { pre: ""@, body: "ook"@, post: ""@, output: "ʊk"@ },
        RuleV { pre: ""@, body: "ood"@, post: ""@, output: "ʊd"@ },
        RuleV { pre: ""@, body: "oo"@, post: ""@, output: "u"@ },
        RuleV { pre: ""@, body: "o"@, post: "e"@, output: "o"@ },
        RuleV { pre: ""@, body: "o"@, post: " "@, output: "o"@ },
        RuleV { pre: ""@, body: "oa"@, post: ""@, output: "o"@ },
        RuleV { pre: " "@, body: "only"@, post: ""@, output: "onli"@ },
        RuleV { pre: " "@, body: "once"@, post: ""@, output: "wʌns"@ },
        RuleV { pre: ""@, body: "on ' t"@, post: ""@, output: "ont"@ },
        RuleV { pre: "c"@, body: "o"@, post: "n"@, output: "ɑ"@ },
        RuleV { pre: ""@, body: "o"@, post: "ng"@, output: "ɔ"@ },
        RuleV { pre: " :^"@, body: "o"@, post: "n"@, output: "ʌ"@ },
        RuleV { pre: "i"@, body: "on"@, post: ""@, output: "ən"@ },
        RuleV { pre: "#:"@, body: "on"@, post: " "@, output: "ən"@ },
        RuleV { pre: "#^"@, body: "on"@, post: ""@, output: "ən"@ },
        RuleV { pre: ""@, body: "o"@, post: "st"@, output: "o"@ },
        RuleV { pre: ""@, body: "of"@, post: "^"@, output: "ɔf"@ },
        RuleV { pre: ""@, body: "other"@, post: ""@, output: "ʌðɚ"@ },
        RuleV { pre: ""@, body: "oss"@, post: ""@, output: "ɔs"@ },
        RuleV { pre: "#:^"@, body: "om"@, post: ""@, output: "ʌm"@ },
        RuleV { pre: ""@, body: "o"@, post: "cus"@, output: "o"@ },
        RuleV { pre: ""@, body: "o"@, post: ""@, output: "ɑ"@ },
    ]
}

/// Build the rule bucket for the letter o.
fn rules_o() -> (v: Vec<Rule>)
    ensures
        rules_view(v@) == spec_rules_o(),
{
    let mut v: Vec<Rule> = Vec::new();
    v.push(Rule::new("", "of", " ", "əv"));
    v.push(Rule::new("", "orough", "", "ɚo"));
    v.push(Rule::new("w", "or", "t", "ɚ"));
    v.push(Rule::new("", "or", "t", "ɔɹ"));
    v.push(Rule::new("#:", "or", "", "ɚ"));
    v.push(Rule::new("#:", "ors", "", "ɚz"));
    v.push(Rule::new("", "or", "", "ɔɹ"));
    v.push(Rule::new(" ", "one", "", "wʌn"));
    v.push(Rule::new("", "ow", "", "o"));
    v.push(Rule::new(" ", "over", "", "ovɚ"));
    v.push(Rule::new("", "ov", "", "ʌv"));
    v.push(Rule::new("", "o", "^%", "o"));
    v.push(Rule::new("", "o", "^en", "o"));
    v.push(Rule::new("", "o", "^i#", "o"));
    v.push(Rule::new("", "ol", "d", "ol"));
    v.push(Rule::new("", "ought", "", "ɔt"));
    v.push(Rule::new("", "ough", "", "əf"));
    v.push(Rule::new(" ", "ou", "", "aw"));
    v.push(Rule::new("h", "ou", "s#", "aw"));
    v.push(Rule::new("", "ous", "", "əs"));
    v.push(Rule::new("", "our", "", "ɔɹ"));
    v.push(Rule::new("", "ould", "", "ʊd"));
    v.push(Rule::new("^", "ou", "^l", "ʌ"));
    v.push(Rule::new("", "oup", "", "up"));
    v.push(Rule::new("", "ou", "", "aw"));
    v.push(Rule::new("", "oy", "", "ɔɪ"));
    v.push(Rule::new("", "oing", "", "oɪŋ"));
    v.push(Rule::new("", "oi", "", "ɔɪ"));
    v.push(Rule::new("", "oor", "", "ɔɹ"));
    v.push(Rule::new("", "ook", "", "ʊk"));
    v.push(Rule::new("", "ood", "", "ʊd"));
    v.push(Rule::new("", "oo", "", "u"));
    v.push(Rule::new("", "o", "e", "o"));
    v.push(Rule::new("", "o", " ", "o"));
    v.push(Rule::new("", "oa", "", "o"));
    v.push(Rule::new(" ", "only", "", "onli"));
    v.push(Rule::new(" ", "once", "", "wʌns"));
    v.push(Rule::new("", "on ' t", "", "ont"));
    v.push(Rule::new("c", "o", "n", "ɑ"));
    v.push(Rule::new("", "o", "ng", "ɔ"));
    v.push(Rule::new(" :^", "o", "n", "ʌ"));
    v.push(Rule::new("i", "on", "", "ən"));
    v.push(Rule::new("#:", "on", " ", "ən"));
    v.push(Rule::new("#^", "on", "", "ən"));
    v.push(Rule::new("", "o", "st", "o"));
    v.push(Rule::new("", "of", "^", "ɔf"));
    v.push(Rule::new("", "other", "", "ʌðɚ"));
    v.push(Rule::new("", "oss", "", "ɔs"));
    v.push(Rule::new("#:^", "om", "", "ʌm"));
    v.push(Rule::new("", "o", "cus", "o"));
    v.push(Rule::new("", "o", "", "ɑ"));
    proof {
        assert(rules_view(v@) =~= spec_rules_o());
    }
    v
}

/// The parsed rules for bodies starting with p.
pub open spec fn spec_rules_p() -> Seq<RuleV> {
    seq![
        RuleV { pre: ""@, body: "ph"@, post: ""@, output: "f"@ },
        RuleV { pre: ""@, body: "peop"@, post: ""@, output: "pip"@ },
        RuleV { pre: ""@, body: "pow"@, post: ""@, output: "paw"@ },
        RuleV { pre: ""@, body: "put"@, post: ""@, output: "pʊt"@ },
        RuleV { pre: " "@, body: "ps"@, post: ""@, output: "s"@ },
        RuleV { pre: ""@, body: "p"@, post: ""@, output: "p"@ },
    ]
}

/// Build the rule bucket for the letter p.
fn rules_p() -> (v: Vec<Rule>)
    ensures
        rules_view(v@) == spec_rules_p(),
{
    let mut v: Vec<Rule> = Vec::new();
    v.push(Rule::new("", "ph", "", "f"));
    v.push(Rule::new("", "peop", "", "pip"));
    v.push(Rule::new("", "pow", "", "paw"));
    v.push(Rule::new("", "put", "", "pʊt"));
    v.push(Rule::new(" ", "ps", "", "s"));
    v.push(Rule::new("", "p", "", "p"));
    proof {
        assert(rules_view(v@) =~= spec_rules_p());
    }
    v
}

/// The parsed rules for bodies starting with q.
pub open spec fn spec_rules_q() -> Seq<RuleV> {
    seq![
        RuleV { pre: ""@, body: "quar"@, post: ""@, output: "kwɔɹ"@ },
        RuleV { pre: ""@, body: "qu"@, post: ""@, output: "kw"@ },
        RuleV { pre: ""@, body: "q"@, post: ""@, output: "k"@ },
    ]
}

/// Build the rule bucket for the letter q.
fn rules_q() -> (v: Vec<Rule>)
    ensures
        rules_view(v@) == spec_rules_q(),
{
    let mut v: Vec<Rule> = Vec::new();
    v.push(Rule::new("", "quar", "", "kwɔɹ"));
    v.push(Rule::new("", "qu", "", "kw"));
    v.push(Rule::new("", "q", "", "k"));
    proof {
        assert(rules_view(v@) =~= spec_rules_q());
    }
    v
}

/// The parsed rules for bodies starting with r.
pub open spec fn spec_rules_r() -> Seq<RuleV> {
    seq![
        RuleV { pre: ""@, body: "re"@, post: "^#"@, output: "ɹi"@ },
        RuleV { pre: ""@, body: "rho"@, post: ""@, output: "ɹo"@ },
        RuleV { pre: ""@, body: "rh"@, post: ""@, output: "ɹ"@ },
        RuleV { pre: ""@, body: "r"@, post: ""@, output: "ɹ"@ },
    ]
}

/// Build the rule bucket for the letter r.
fn rules_r() -> (v: Vec<Rule>)
    ensures
        rules_view(v@) == spec_rules_r(),
{
    let mut v: Vec<Rule> = Vec::new();
    v.push(Rule::new("", "re", "^#", "ɹi"));
    v.push(Rule::new("", "rho", "", "ɹo"));
    v.push(Rule::new("", "rh", "", "ɹ"));
    v.push(Rule::new("", "r", "", "ɹ"));
    proof {
        assert(rules_view(v@) =~= spec_rules_r());
    }
    v
}

/// The parsed rules for bodies starting with s.
pub open spec fn spec_rules_s() -> Seq<RuleV> {
    seq![
        RuleV { pre: ""@, body: "sh"@, post: ""@, output: "ʃ"@ },
        RuleV { pre: "#"@, body: "sion"@, post: ""@, output: "ʒən"@ },
        RuleV { pre: ""@, body: "some"@, post: ""@, output: "sʌm"@ },
        RuleV { pre: "#"@, body: "sur"@, post: "#"@, output: "ʒɚ"@ },
        RuleV { pre: ""@, body: "sur"@, post: "#"@, output: "ʃɚ"@ },
        RuleV { pre: "#"@, body: "su"@, post: "#"@, output: "ʒu"@ },
        RuleV { pre: "#"@, body: "ssu"@, post: "#"@, output: "ʃu"@ },
        RuleV { pre: "#"@, body: "sed"@, post: " "@, output: "zd"@ },
        RuleV { pre: "#"@, body: "s"@, post: "#"@, output: "z"@ },
        RuleV { pre: ""@, body: "said"@, post: ""@, output: "sɛd"@ },
        RuleV { pre: "^"@, body: "sion"@, post: ""@, output: "ʃən"@ },
        RuleV { pre: ""@, body: "s"@, post: "s"@, output: ""@ },
        RuleV { pre: "."@, body: "s"@, post: " "@, output: "z"@ },
        RuleV { pre: "#:e"@, body: "s"@, post: " "@, output: "z"@ },
        RuleV { pre: "#^.##"@, body: "s"@, post: " "@, output: "z"@ },
        RuleV { pre: "#^.#"@, body: "s"@, post: " "@, output: "s"@ },
        RuleV { pre: "u"@, body: "s"@, post: " "@, output: "s"@ },
        RuleV { pre: " :#"@, body: "s"@, post: " "@, output: "z"@ },
        RuleV { pre: " "@, body: "sch"@, post: ""@, output: "sk"@ },
        RuleV { pre: ""@, body: "s"@, post: "c+"@, output: ""@ },
        RuleV { pre: "#"@, body: "sm"@, post: ""@, output: "zm"@ },
        RuleV { pre: "#"@, body: "sn"@, post: " '"@, output: "zən"@ },
        RuleV { pre: ""@, body: "s"@, post: ""@, output: "s"@ },
    ]
}

/// Build the rule bucket for the letter s.
fn rules_s() -> (v: Vec<Rule>)
    ensures
        rules_view(v@) == spec_rules_s(),
{
    let mut v: Vec<Rule> = Vec::new();
    v.push(Rule::new("", "sh", "", "ʃ"));
    v.push(Rule::new("#", "sion", "", "ʒən"));
    v.push(Rule::new("", "some", "", "sʌm"));
    v.push(Rule::new("#", "sur", "#", "ʒɚ"));
    v.push(Rule::new("", "sur", "#", "ʃɚ"));
    v.push(Rule::new("#", "su", "#", "ʒu"));
    v.push(Rule::new("#", "ssu", "#", "ʃu"));
    v.push(Rule::new("#", "sed", " ", "zd"));
    v.push(Rule::new("#", "s", "#", "z"));
    v.push(Rule::new("", "said", "", "sɛd"));
    v.push(Rule::new("^", "sion", "", "ʃən"));
    v.push(Rule::new("", "s", "s", ""));
    v.push(Rule::new(".", "s", " ", "z"));
    v.push(Rule::new("#:e", "s", " ", "z"));
    v.push(Rule::new("#^.##", "s", " ", "z"));
    v.push(Rule::new("#^.#", "s", " ", "s"));
    v.push(Rule::new("u", "s", " ", "s"));
    v.push(Rule::new(" :#", "s", " ", "z"));
    v.push(Rule::new(" ", "sch", "", "sk"));
    v.push(Rule::new("", "s", "c+", ""));
    v.push(Rule::new("#", "sm", "", "zm"));
    v.push(Rule::new("#", "sn", " '", "zən"));
    v.push(Rule::new("", "s", "", "s"));
    proof {
        assert(rules_view(v@) =~= spec_rules_s());
    }
    v
}

/// The parsed rules for bodies starting with t.
pub open spec fn spec_rules_t() -> Seq<RuleV> {
    seq![
        RuleV { pre: " "@, body: "the"@, post: " "@, output: "ðə"@ },
        RuleV { pre: ""@, body: "to"@, post: " "@, output: "tu"@ },
        RuleV { pre: ""@, body: "that"@, post: " "@, output: "ðæt"@ },
        RuleV { pre: " "@, body: "this"@, post: " "@, output: "ðɪs"@ },
        RuleV { pre: " "@, body: "they"@, post: ""@, output: "ðeɪ"@ },
        RuleV { pre: " "@, body: "there"@, post: ""@, output: "ðɛɹ"@ },
        RuleV { pre: ""@, body: "ther"@, post: ""@, output: "ðɚ"@ },
        RuleV { pre: ""@, body: "their"@, post: ""@, output: "ðɛɹ"@ },
        RuleV { pre: " "@, body: "than"@, post: " "@, output: "ðæn"@ },
        RuleV { pre: " "@, body: "them"@, post: " "@, output: "ðɛm"@ },
        RuleV { pre: ""@, body: "these"@, post: " "@, output: "ðiz"@ },
        RuleV { pre: " "@, body: "then"@, post: ""@, output: "ðɛn"@ },
        RuleV { pre: ""@, body: "through"@, post: ""@, output: "θɹu"@ },
        RuleV { pre: ""@, body: "those"@, post: ""@, output: "ðoz"@ },
        RuleV { pre: ""@, body: "though"@, post: " "@, output: "ðo"@ },
        RuleV { pre: " "@, body: "thus"@, post: ""@, output: "ðʌs"@ },
        RuleV { pre: ""@, body: "th"@, post: ""@, output: "θ"@ },
        RuleV { pre: "#:"@, body: "ted"@, post: " "@, output: "tɪd"@ },
        RuleV { pre: "s"@, body: "ti"@, post: "#n"@, output: "tʃ"@ },
        RuleV { pre: ""@, body: "ti"@, post: "o"@, output: "ʃ"@ },
        RuleV { pre: ""@, body: "ti"@, post: "a"@, output: "ʃ"@ },
        RuleV { pre: ""@, body: "tien"@, post: ""@, output: "ʃən"@ },
        RuleV { pre: ""@, body: "tur"@, post: "#"@, output: "tʃɚ"@ },
        RuleV { pre: ""@, body: "tu"@, post: "a"@, output: "tʃu"@ },
        RuleV { pre: " "@, body: "two"@, post: ""@, output: "tu"@ },
        RuleV { pre: ""@, body: "t"@, post: ""@, output: "t"@ },
    ]
}

/// Build the rule bucket for the letter t.
fn rules_t() -> (v: Vec<Rule>)
    ensures
        rules_view(v@) == spec_rules_t(),
{
    let mut v: Vec<Rule> = Vec::new();
    v.push(Rule::new(" ", "the", " ", "ðə"));
    v.push(Rule::new("", "to", " ", "tu"));
    v.push(Rule::new("", "that", " ", "ðæt"));
    v.push(Rule::new(" ", "this", " ", "ðɪs"));
    v.push(Rule::new(" ", "they", "", "ðeɪ"));
    v.push(Rule::new(" ", "there", "", "ðɛɹ"));
    v.push(Rule::new("", "ther", "", "ðɚ"));
    v.push(Rule::new("", "their", "", "ðɛɹ"));
    v.push(Rule::new(" ", "than", " ", "ðæn"));
    v.push(Rule::new(" ", "them", " ", "ðɛm"));
    v.push(Rule::new("", "these", " ", "ðiz"));
    v.push(Rule::new(" ", "then", "", "ðɛn"));
    v.push(Rule::new("", "through", "", "θɹu"));
    v.push(Rule::new("", "those", "", "ðoz"));
    v.push(Rule::new("", "though", " ", "ðo"));
    v.push(Rule::new(" ", "thus", "", "ðʌs"));
    v.push(Rule::new("", "th", "", "θ"));
    v.push(Rule::new("#:", "ted", " ", "tɪd"));
    v.push(Rule::new("s", "ti", "#n", "tʃ"));
    v.push(Rule::new("", "ti", "o", "ʃ"));
    v.push(Rule::new("", "ti", "a", "ʃ"));
    v.push(Rule::new("", "tien", "", "ʃən"));
    v.push(Rule::new("", "tur", "#", "tʃɚ"));
    v.push(Rule::new("", "tu", "a", "tʃu"));
    v.push(Rule::new(" ", "two", "", "tu"));
    v.push(Rule::new("", "t", "", "t"));
    proof {
        assert(rules_view(v@) =~= spec_rules_t());
    }
    v
}

/// The parsed rules for bodies starting with u.
pub open spec fn spec_rules_u() -> Seq<RuleV> {
    seq![
        RuleV { pre: " "@, body: "un"@, post: "i"@, output: "jun"@ },
        RuleV { pre: " "@, body: "un"@, post: ""@, output: "ʌn"@ },
        RuleV { pre: " "@, body: "upon"@, post: ""@, output: "əpɔn"@ },
        RuleV { pre: "@"@, body: "ur"@, post: "#"@, output: "ʊɹ"@ },
        RuleV { pre: ""@, body: "ur"@, post: "#"@, output: "jʊɹ"@ },
        RuleV { pre: ""@, body: "ur"@, post: ""@, output: "ɚ"@ },
        RuleV { pre: ""@, body: "u"@, post: "^ "@, output: "ʌ"@ },
        RuleV { pre: ""@, body: "u"@, post: "^^"@, output: "ʌ"@ },
        RuleV { pre: ""@, body: "uy"@, post: ""@, output: "aɪ"@ },
        RuleV { pre: " g"@, body: "u"@, post: "#"@, output: ""@ },
        RuleV { pre: "g"@, body: "u"@, post: "%"@, output: ""@ },
        RuleV { pre: "g"@, body: "u"@, post: "#"@, output: "w"@ },
        RuleV { pre: "#n"@, body: "u"@, post: ""@, output: "ju"@ },
        RuleV { pre: "@"@, body: "u"@, post: ""@, output: "u"@ },
        RuleV { pre: ""@, body: "u"@, post: ""@, output: "ju"@ },
    ]
}

/// Build the rule bucket for the letter u.
fn rules_u() -> (v: Vec<Rule>)
    ensures
        rules_view(v@) == spec_rules_u(),
{
    let mut v: Vec<Rule> = Vec::new();
    v.push(Rule::new(" ", "un", "i", "jun"));
    v.push(Rule::new(" ", "un", "", "ʌn"));
    v.push(Rule::new(" ", "upon", "", "əpɔn"));
    v.push(Rule::new("@", "ur", "#", "ʊɹ"));
    v.push(Rule::new("", "ur", "#", "jʊɹ"));
    v.push(Rule::new("", "ur", "", "ɚ"));
    v.push(Rule::new("", "u", "^ ", "ʌ"));
    v.push(Rule::new("", "u", "^^", "ʌ"));
    v.push(Rule::new("", "uy", "", "aɪ"));
    v.push(Rule::new(" g", "u", "#", ""));
    v.push(Rule::new("g", "u", "%", ""));
    v.push(Rule::new("g", "u", "#", "w"));
    v.push(Rule::new("#n", "u", "", "ju"));
    v.push(Rule::new("@", "u", "", "u"));
    v.push(Rule::new("", "u", "", "ju"));
    proof {
        assert(rules_view(v@) =~= spec_rules_u());
    }
    v
}

/// The parsed rules for bodies starting with v.
pub open spec fn spec_rules_v() -> Seq<RuleV> {
    seq![
        RuleV { pre: ""@, body: "view"@, post: ""@, output: "vju"@ },
        RuleV { pre: ""@, body: "v"@, post: ""@, output: "v"@ },
    ]
}

/// Build the rule bucket for the letter v.
fn rules_v() -> (v: Vec<Rule>)
    ensures
        rules_view(v@) == spec_rules_v(),
{
    let mut v: Vec<Rule> = Vec::new();
    v.push(Rule::new("", "view", "", "vju"));
    v.push(Rule::new("", "v", "", "v"));
    proof {
        assert(rules_view(v@) =~= spec_rules_v());
    }
    v
}

/// The parsed rules for bodies starting with w.
pub open spec fn spec_rules_w() -> Seq<RuleV> {
    seq![
        RuleV { pre: " "@, body: "were"@, post: ""@, output: "wɚ"@ },
        RuleV { pre: ""@, body: "wa"@, post: "s"@, output: "wɑ"@ },
        RuleV { pre: ""@, body: "wa"@, post: "t"@, output: "wɑ"@ },
        RuleV { pre: ""@, body: "where"@, post: ""@, output: "wɛɹ"@ },
        RuleV { pre: ""@, body: "what"@, post: ""@, output: "wɑt"@ },
        RuleV { pre: ""@, body: "whol"@, post: ""@, output: "hol"@ },
        RuleV { pre: ""@, body: "who"@, post: ""@, output: "hu"@ },
        RuleV { pre: ""@, body: "wh"@, post: ""@, output: "ʍ"@ },
        RuleV { pre: ""@, body: "war"@, post: ""@, output: "wɔɹ"@ },
        RuleV { pre: ""@, body: "wor"@, post: "^"@, output: "wɚ"@ },
        RuleV { pre: ""@, body: "wr"@, post: ""@, output: "ɹ"@ },
        RuleV { pre: ""@, body: "w"@, post: ""@, output: "w"@ },
    ]
}

/// Build the rule bucket for the letter w.
fn rules_w() -> (v: Vec<Rule>)
    ensures
        rules_view(v@) == spec_rules_w(),
{
    let mut v: Vec<Rule> = Vec::new();
    v.push(Rule::new(" ", "were", "", "wɚ"));
    v.push(Rule::new("", "wa", "s", "wɑ"));
    v.push(Rule::new("", "wa", "t", "wɑ"));
    v.push(Rule::new("", "where", "", "wɛɹ"));
    v.push(Rule::new("", "what", "", "wɑt"));
    v.push(Rule::new("", "whol", "", "hol"));
    v.push(Rule::new("", "who", "", "hu"));
    v.push(Rule::new("", "wh", "", "ʍ"));
    v.push(Rule::new("", "war", "", "wɔɹ"));
    v.push(Rule::new("", "wor", "^", "wɚ"));
    v.push(Rule::new("", "wr", "", "ɹ"));
    v.push(Rule::new("", "w", "", "w"));
    proof {
        assert(rules_view(v@) =~= spec_rules_w());
    }
    v
}

/// The parsed rules for bodies starting with x.
pub open spec fn spec_rules_x() -> Seq<RuleV> {
    seq![
        RuleV { pre: " "@, body: "x"@, post: "#"@, output: "z"@ },
        RuleV { pre: " e"@, body: "x"@, post: "#"@, output: "gz"@ },
        RuleV { pre: ""@, body: "x"@, post: ""@, output: "ks"@ },
    ]
}

/// Build the rule bucket for the letter x.
fn rules_x() -> (v: Vec<Rule>)
    ensures
        rules_view(v@) == spec_rules_x(),
{
    let mut v: Vec<Rule> = Vec::new();
    v.push(Rule::new(" ", "x", "#", "z"));
    v.push(Rule::new(" e", "x", "#", "gz"));
    v.push(Rule::new("", "x", "", "ks"));
    proof {
        assert(rules_view(v@) =~= spec_rules_x());
    }
    v
}

/// The parsed rules for bodies starting with y.
pub open spec fn spec_rules_y() -> Seq<RuleV> {
    seq![
        RuleV { pre: ""@, body: "young"@, post: ""@, output: "jʌŋ"@ },
        RuleV { pre: " "@, body: "you"@, post: ""@, output: "ju"@ },
        RuleV { pre: " "@, body: "yes"@, post: ""@, output: "jɛs"@ },
        RuleV { pre: " "@, body: "y"@, post: ""@, output: "j"@ },
        RuleV { pre: "if"@, body: "y"@, post: " "@, output: "aɪ"@ },
        RuleV { pre: "#:^"@, body: "y"@, post: " "@, output: "i"@ },
        RuleV { pre: "#:^"@, body: "y"@, post: "i"@, output: "i"@ },
        RuleV { pre: " :"@, body: "y"@, post: " "@, output: "aɪ"@ },
        RuleV { pre: " :"@, body: "y"@, post: "#"@, output: "aɪ"@ },
        RuleV { pre: " :"@, body: "y"@, post: "^+:#"@, output: "ɪ"@ },
        RuleV { pre: " :"@, body: "y"@, post: "^#"@, output: "aɪ"@ },
        RuleV { pre: ""@, body: "y"@, post: ""@, output: "ɪ"@ },
    ]
}

/// Build the rule bucket for the letter y.
fn rules_y() -> (v: Vec<Rule>)
    ensures
        rules_view(v@) == spec_rules_y(),
{
    let mut v: Vec<Rule> = Vec::new();
    v.push(Rule::new("", "young", "", "jʌŋ"));
    v.push(Rule::new(" ", "you", "", "ju"));
    v.push(Rule::new(" ", "yes", "", "jɛs"));
    v.push(Rule::new(" ", "y", "", "j"));
    v.push(Rule::new("if", "y", " ", "aɪ"));
    v.push(Rule::new("#:^", "y", " ", "i"));
    v.push(Rule::new("#:^", "y", "i", "i"));
    v.push(Rule::new(" :", "y", " ", "aɪ"));
    v.push(Rule::new(" :", "y", "#", "aɪ"));
    v.push(Rule::new(" :", "y", "^+:#", "ɪ"));
    v.push(Rule::new(" :", "y", "^#", "aɪ"));
    v.push(Rule::new("", "y", "", "ɪ"));
    proof {
        assert(rules_view(v@) =~= spec_rules_y());
    }
    v
}

/// The parsed rules for bodies starting with z.
pub open spec fn spec_rules_z() -> Seq<RuleV> {
    seq![
        RuleV { pre: ""@, body: "z"@, post: ""@, output: "z"@ },
    ]
}

/// Build the rule bucket for the letter z.
fn rules_z() -> (v: Vec<Rule>)
    ensures
        rules_view(v@) == spec_rules_z(),
{
    let mut v: Vec<Rule> = Vec::new();
    v.push(Rule::new("", "z", "", "z"));
    proof {
        assert(rules_view(v@) =~= spec_rules_z());
    }
    v
}

/// The whole rule table, bucketed by the first letter of the body.
pub open spec fn spec_ruleset() -> Seq<Seq<RuleV>> {
    seq![
        spec_rules_a(),
        spec_rules_b(),
        spec_rules_c(),
        spec_rules_d(),
        spec_rules_e(),
        spec_rules_f(),
        spec_rules_g(),
        spec_rules_h(),
        spec_rules_i(),
        spec_rules_j(),
        spec_rules_k(),
        spec_rules_l(),
        spec_rules_m(),
        spec_rules_n(),
        spec_rules_o(),
        spec_rules_p(),
        spec_rules_q(),
        spec_rules_r(),
        spec_rules_s(),
        spec_rules_t(),
        spec_rules_u(),
        spec_rules_v(),
        spec_rules_w(),
        spec_rules_x(),
        spec_rules_y(),
        spec_rules_z(),
    ]
}

impl TextToPhoneme {
    /// Build the rule table.
    pub fn new() -> (t: TextToPhoneme)
        ensures
            t.wf(),
            t@ == spec_ruleset(),
    {
        let mut alpha_rules: Vec<Vec<Rule>> = Vec::new();
        alpha_rules.push(rules_a());
        alpha_rules.push(rules_b());
        alpha_rules.push(rules_c());
        alpha_rules.push(rules_d());
        alpha_rules.push(rules_e());
        alpha_rules.push(rules_f());
        alpha_rules.push(rules_g());
        alpha_rules.push(rules_h());
        alpha_rules.push(rules_i());
        alpha_rules.push(rules_j());
        alpha_rules.push(rules_k());
        alpha_rules.push(rules_l());
        alpha_rules.push(rules_m());
        alpha_rules.push(rules_n());
        alpha_rules.push(rules_o());
        alpha_rules.push(rules_p());
        alpha_rules.push(rules_q());
        alpha_rules.push(rules_r());
        alpha_rules.push(rules_s());
        alpha_rules.push(rules_t());
        alpha_rules.push(rules_u());
        alpha_rules.push(rules_v());
        alpha_rules.push(rules_w());
        alpha_rules.push(rules_x());
        alpha_rules.push(rules_y());
        alpha_rules.push(rules_z());
        let t = TextToPhoneme { alpha_rules };
        proof {
            assert(t@ =~= spec_ruleset());
        }
        t
    }
}


/// If some rule at or after position j matches, the search that starts
/// at k finds a rule.
pub proof fn lemma_first_match_finds(rules: Seq<RuleV>, k: int, text: Seq<char>, ix: int, j: int)
    requires
        0 <= k <= j < rules.len(),
        rule_matches(rules[j], text, ix),
    ensures
        first_match(rules, k, text, ix) is Some,
    decreases j - k,
{
    if k == j {
    } else if rule_matches(rules[k], text, ix) {
    } else {
        lemma_first_match_finds(rules, k + 1, text, ix, j);
    }
}

/// A bucket that ends with a context-free rule for the letter c has a
/// match wherever the text reads c.
pub proof fn lemma_catchall_matches(rules: Seq<RuleV>, text: Seq<char>, ix: int, c: char)
    requires
        0 <= ix < text.len(),
        text[ix] == c,
        rules.len() > 0,
        rules.last().pre.len() == 0,
        rules.last().post.len() == 0,
        rules.last().body == seq![c],
    ensures
        first_match(rules, 0, text, ix) is Some,
{
    let last = rules.last();
    assert(text.subrange(ix, ix + 1) =~= seq![c]);
    assert(match_rest(last.pre, 0, text, ix, 0, last.post, ix + 1));
    assert(rule_matches(last, text, ix));
    lemma_first_match_finds(rules, 0, text, ix, rules.len() - 1);
}

/// The built-in rule table is total on lowercase text: each bucket ends
/// with a context-free rule for its letter, so a lowercase letter always
/// finds a rule and the rewriting loop never has to step over one.
pub proof fn lemma_ruleset_total(text: Seq<char>, ix: int)
    requires
        0 <= ix < text.len(),
        spec_is_lower(text[ix]),
    ensures
        first_match(spec_ruleset()[letter_index(text[ix])], 0, text, ix) is Some,
{
    reveal_strlit("");
    reveal_strlit("a");
    reveal_strlit("b");
    reveal_strlit("c");
    reveal_strlit("d");
    reveal_strlit("e");
    reveal_strlit("f");
    reveal_strlit("g");
    reveal_strlit("h");
    reveal_strlit("i");
    reveal_strlit("j");
    reveal_strlit("k");
    reveal_strlit("l");
    reveal_strlit("m");
    reveal_strlit("n");
    reveal_strlit("o");
    reveal_strlit("p");
    reveal_strlit("q");
    reveal_strlit("r");
    reveal_strlit("s");
    reveal_strlit("t");
    reveal_strlit("u");
    reveal_strlit("v");
    reveal_strlit("w");
    reveal_strlit("x");
    reveal_strlit("y");
    reveal_strlit("z");
    let c = text[ix];
    if c == 'a' {
        assert("a"@ =~= seq!['a']);
        assert(spec_ruleset()[letter_index(c)] == spec_rules_a());
        lemma_catchall_matches(spec_rules_a(), text, ix, 'a');
    } else if c == 'b' {
        assert("b"@ =~= seq!['b']);
        assert(spec_ruleset()[letter_index(c)] == spec_rules_b());
        lemma_catchall_matches(spec_rules_b(), text, ix, 'b');
    } else if c == 'c' {
        assert("c"@ =~= seq!['c']);
        assert(spec_ruleset()[letter_index(c)] == spec_rules_c());
        lemma_catchall_matches(spec_rules_c(), text, ix, 'c');
    } else if c == 'd' {
        assert("d"@ =~= seq!['d']);
        assert(spec_ruleset()[letter_index(c)] == spec_rules_d());
        lemma_catchall_matches(spec_rules_d(), text, ix, 'd');
    } else if c == 'e' {
        assert("e"@ =~= seq!['e']);
        assert(spec_ruleset()[letter_index(c)] == spec_rules_e());
        lemma_catchall_matches(spec_rules_e(), text, ix, 'e');
    } else if c == 'f' {
        assert("f"@ =~= seq!['f']);
        assert(spec_ruleset()[letter_index(c)] == spec_rules_f());
        lemma_catchall_matches(spec_rules_f(), text, ix, 'f');
    } else if c == 'g' {
        assert("g"@ =~= seq!['g']);
        assert(spec_ruleset()[letter_index(c)] == spec_rules_g());
        lemma_catchall_matches(spec_rules_g(), text, ix, 'g');
    } else if c == 'h' {
        assert("h"@ =~= seq!['h']);
        assert(spec_ruleset()[letter_index(c)] == spec_rules_h());
        lemma_catchall_matches(spec_rules_h(), text, ix, 'h');
    } else if c == 'i' {
        assert("i"@ =~= seq!['i']);
        assert(spec_ruleset()[letter_index(c)] == spec_rules_i());
        lemma_catchall_matches(spec_rules_i(), text, ix, 'i');
    } else if c == 'j' {
        assert("j"@ =~= seq!['j']);
        assert(spec_ruleset()[letter_index(c)] == spec_rules_j());
        lemma_catchall_matches(spec_rules_j(), text, ix, 'j');
    } else if c == 'k' {
        assert("k"@ =~= seq!['k']);
        assert(spec_ruleset()[letter_index(c)] == spec_rules_k());
        lemma_catchall_matches(spec_rules_k(), text, ix, 'k');
    } else if c == 'l' {
        assert("l"@ =~= seq!['l']);
        assert(spec_ruleset()[letter_index(c)] == spec_rules_l());
        lemma_catchall_matches(spec_rules_l(), text, ix, 'l');
    } else if c == 'm' {
        assert("m"@ =~= seq!['m']);
        assert(spec_ruleset()[letter_index(c)] == spec_rules_m());
        lemma_catchall_matches(spec_rules_m(), text, ix, 'm');
    } else if c == 'n' {
        assert("n"@ =~= seq!['n']);
        assert(spec_ruleset()[letter_index(c)] == spec_rules_n());
        lemma_catchall_matches(spec_rules_n(), text, ix, 'n');
    } else if c == 'o' {
        assert("o"@ =~= seq!['o']);
        assert(spec_ruleset()[letter_index(c)] == spec_rules_o());
        lemma_catchall_matches(spec_rules_o(), text, ix, 'o');
    } else if c == 'p' {
        assert("p"@ =~= seq!['p']);
        assert(spec_ruleset()[letter_index(c)] == spec_rules_p());
        lemma_catchall_matches(spec_rules_p(), text, ix, 'p');
    } else if c == 'q' {
        assert("q"@ =~= seq!['q']);
        assert(spec_ruleset()[letter_index(c)] == spec_rules_q());
        lemma_catchall_matches(spec_rules_q(), text, ix, 'q');
    } else if c == 'r' {
        assert("r"@ =~= seq!['r']);
        assert(spec_ruleset()[letter_index(c)] == spec_rules_r());
        lemma_catchall_matches(spec_rules_r(), text, ix, 'r');
    } else if c == 's' {
        assert("s"@ =~= seq!['s']);
        assert(spec_ruleset()[letter_index(c)] == spec_rules_s());
        lemma_catchall_matches(spec_rules_s(), text, ix, 's');
    } else if c == 't' {
        assert("t"@ =~= seq!['t']);
        assert(spec_ruleset()[letter_index(c)] == spec_rules_t());
        lemma_catchall_matches(spec_rules_t(), text, ix, 't');
    } else if c == 'u' {
        assert("u"@ =~= seq!['u']);
        assert(spec_ruleset()[letter_index(c)] == spec_rules_u());
        lemma_catchall_matches(spec_rules_u(), text, ix, 'u');
    } else if c == 'v' {
        assert("v"@ =~= seq!['v']);
        assert(spec_ruleset()[letter_index(c)] == spec_rules_v());
        lemma_catchall_matches(spec_rules_v(), text, ix, 'v');
    } else if c == 'w' {
        assert("w"@ =~= seq!['w']);
        assert(spec_ruleset()[letter_index(c)] == spec_rules_w());
        lemma_catchall_matches(spec_rules_w(), text, ix, 'w');
    } else if c == 'x' {
        assert("x"@ =~= seq!['x']);
        assert(spec_ruleset()[letter_index(c)] == spec_rules_x());
        lemma_catchall_matches(spec_rules_x(), text, ix, 'x');
    } else if c == 'y' {
        assert("y"@ =~= seq!['y']);
        assert(spec_ruleset()[letter_index(c)] == spec_rules_y());
        lemma_catchall_matches(spec_rules_y(), text, ix, 'y');
    } else {
        assert(c == 'z');
        assert("z"@ =~= seq!['z']);
        assert(spec_ruleset()[letter_index(c)] == spec_rules_z());
        lemma_catchall_matches(spec_rules_z(), text, ix, 'z');
    }
}

} // verus!
