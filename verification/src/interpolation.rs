//! Interpolation of shell-style variable references into strings.
//!
//! A reference string is scanned left to right.  At every `$` the scanner
//! matches, in order, a braced reference `${NAME}`, a bare reference
//! `$NAME`, or an escaped dollar pair `$$`; anything else after a `$` is a
//! syntax error.  Variable names follow the usual identifier grammar: a
//! letter or underscore followed by letters, digits or underscores.
//!
//! The same token grammar drives all three operating modes — resolving
//! against an environment, unescaping without touching the environment,
//! and syntax checking — so a string accepted by one mode is tokenized
//! identically by the others.  The grammar itself is written once, as the
//! specification functions below, and every mode's contract refers to it.

use vstd::prelude::*;
use vstd::string::StrSliceExecFns;
use vstd::string::StringExecFns;

use crate::errors::InterpolationError;

verus! {

/// True for characters that may begin a variable name: ASCII letters and
/// the underscore.
pub open spec fn is_ident_start(c: char) -> bool {
    ('A' as u32 <= c as u32 && c as u32 <= 'Z' as u32) || ('a' as u32 <= c as u32 && c as u32
        <= 'z' as u32) || c == '_'
}

/// True for characters that may continue a variable name: ASCII letters,
/// digits and the underscore.
pub open spec fn is_ident_char(c: char) -> bool {
    is_ident_start(c) || ('0' as u32 <= c as u32 && c as u32 <= '9' as u32)
}

/// Length of the run of identifier characters at the front of `s`.
pub open spec fn ident_run(s: Seq<char>) -> nat
    decreases s.len(),
{
    if s.len() > 0 && is_ident_char(s[0]) {
        1 + ident_run(s.drop_first())
    } else {
        0
    }
}

/// The identifier run never extends past the end of the sequence.
pub proof fn lemma_ident_run_le(s: Seq<char>)
    ensures
        ident_run(s) <= s.len(),
    decreases s.len(),
{
    if s.len() > 0 && is_ident_char(s[0]) {
        lemma_ident_run_le(s.drop_first());
    }
}

/// An escaped dollar pair `$$` stands at the front of `s`.
pub open spec fn escaped_at(s: Seq<char>) -> bool {
    s.len() >= 2 && s[0] == '$' && s[1] == '$'
}

/// A bare reference `$NAME` stands at the front of `s`.
pub open spec fn bare_at(s: Seq<char>) -> bool {
    s.len() >= 2 && s[0] == '$' && is_ident_start(s[1])
}

/// The name of the bare reference at the front of `s`.
pub open spec fn bare_name(s: Seq<char>) -> Seq<char> {
    s.subrange(1, 1 + ident_run(s.skip(1)) as int)
}

/// A braced reference `${NAME}` stands at the front of `s`: the braces
/// must enclose exactly one identifier, with no other character before the
/// closing brace.
pub open spec fn braced_at(s: Seq<char>) -> bool {
    s.len() > 2 && s[0] == '$' && s[1] == '{' && is_ident_start(s[2]) && 2 + ident_run(s.skip(2))
        < s.len() && s[2 + ident_run(s.skip(2)) as int] == '}'
}

/// The name of the braced reference at the front of `s`.
pub open spec fn braced_name(s: Seq<char>) -> Seq<char> {
    s.subrange(2, 2 + ident_run(s.skip(2)) as int)
}

/// A real (non-escaped) reference stands at the front of `s`.
pub open spec fn is_ref_at(s: Seq<char>) -> bool {
    bare_at(s) || braced_at(s)
}

/// Some valid dollar token — escaped pair, bare or braced reference —
/// stands at the front of `s`.
pub open spec fn dollar_ok(s: Seq<char>) -> bool {
    escaped_at(s) || is_ref_at(s)
}

/// Length, in characters, of the dollar token at the front of `s`.
pub open spec fn tok_len(s: Seq<char>) -> nat {
    if braced_at(s) {
        ident_run(s.skip(2)) + 3
    } else if bare_at(s) {
        ident_run(s.skip(1)) + 1
    } else {
        2
    }
}

/// The variable name of the reference token at the front of `s`.
pub open spec fn tok_name(s: Seq<char>) -> Seq<char> {
    if braced_at(s) {
        braced_name(s)
    } else {
        bare_name(s)
    }
}

/// The dollar token at the front of `s` fits inside `s`.
pub proof fn lemma_tok_len_le(s: Seq<char>)
    requires
        dollar_ok(s),
    ensures
        2 <= tok_len(s) <= s.len(),
{
    if braced_at(s) {
    } else if bare_at(s) {
        lemma_ident_run_le(s.skip(1));
    }
}

/// The whole of `s` is a well-formed interpolation string: every `$`
/// starts a valid token.
pub open spec fn wf(s: Seq<char>) -> bool
    decreases s.len(),
    via wf_decreases
{
    if s.len() == 0 {
        true
    } else if s[0] != '$' {
        wf(s.drop_first())
    } else if dollar_ok(s) {
        wf(s.skip(tok_len(s) as int))
    } else {
        false
    }
}

#[via_fn]
proof fn wf_decreases(s: Seq<char>) {
    if s.len() > 0 && s[0] == '$' && dollar_ok(s) {
        lemma_tok_len_le(s);
    }
}

/// `s` contains at least one real (non-escaped) reference.
pub open spec fn has_ref(s: Seq<char>) -> bool
    decreases s.len(),
    via has_ref_decreases
{
    if s.len() == 0 {
        false
    } else if s[0] != '$' {
        has_ref(s.drop_first())
    } else if is_ref_at(s) {
        true
    } else if escaped_at(s) {
        has_ref(s.skip(2))
    } else {
        false
    }
}

#[via_fn]
proof fn has_ref_decreases(s: Seq<char>) {
}

/// The text of `s` with every escaped dollar pair replaced by a single
/// dollar sign.  Reference tokens are kept verbatim; the unescaping
/// operation never succeeds on a string that contains one.
pub open spec fn unescaped(s: Seq<char>) -> Seq<char>
    decreases s.len(),
    via unescaped_decreases
{
    if s.len() == 0 {
        s
    } else if s[0] != '$' {
        seq![s[0]] + unescaped(s.drop_first())
    } else if escaped_at(s) {
        seq!['$'] + unescaped(s.skip(2))
    } else if is_ref_at(s) {
        s.take(tok_len(s) as int) + unescaped(s.skip(tok_len(s) as int))
    } else {
        seq![s[0]] + unescaped(s.drop_first())
    }
}

#[via_fn]
proof fn unescaped_decreases(s: Seq<char>) {
    if s.len() > 0 && s[0] == '$' && !escaped_at(s) && is_ref_at(s) {
        lemma_tok_len_le(s);
    }
}

/// Every reference in `s` names a variable that the environment defines.
pub open spec fn refs_defined(s: Seq<char>, env: Map<Seq<char>, Seq<char>>) -> bool
    decreases s.len(),
    via refs_defined_decreases
{
    if s.len() == 0 {
        true
    } else if s[0] != '$' {
        refs_defined(s.drop_first(), env)
    } else if is_ref_at(s) {
        env.contains_key(tok_name(s)) && refs_defined(s.skip(tok_len(s) as int), env)
    } else if escaped_at(s) {
        refs_defined(s.skip(2), env)
    } else {
        true
    }
}

#[via_fn]
proof fn refs_defined_decreases(s: Seq<char>, env: Map<Seq<char>, Seq<char>>) {
    if s.len() > 0 && s[0] == '$' && is_ref_at(s) {
        lemma_tok_len_le(s);
    }
}

/// The name of the leftmost reference in `s` that the environment does not
/// define (the empty sequence if every reference is defined).
pub open spec fn first_undefined(s: Seq<char>, env: Map<Seq<char>, Seq<char>>) -> Seq<char>
    decreases s.len(),
    via first_undefined_decreases
{
    if s.len() == 0 {
        Seq::empty()
    } else if s[0] != '$' {
        first_undefined(s.drop_first(), env)
    } else if is_ref_at(s) {
        if !env.contains_key(tok_name(s)) {
            tok_name(s)
        } else {
            first_undefined(s.skip(tok_len(s) as int), env)
        }
    } else if escaped_at(s) {
        first_undefined(s.skip(2), env)
    } else {
        Seq::empty()
    }
}

#[via_fn]
proof fn first_undefined_decreases(s: Seq<char>, env: Map<Seq<char>, Seq<char>>) {
    if s.len() > 0 && s[0] == '$' && is_ref_at(s) && env.contains_key(tok_name(s)) {
        lemma_tok_len_le(s);
    }
}

/// The text of `s` with escaped pairs unescaped and every reference
/// replaced by the environment's value for the referenced name.
pub open spec fn resolved(s: Seq<char>, env: Map<Seq<char>, Seq<char>>) -> Seq<char>
    decreases s.len(),
    via resolved_decreases
{
    if s.len() == 0 {
        s
    } else if s[0] != '$' {
        seq![s[0]] + resolved(s.drop_first(), env)
    } else if escaped_at(s) {
        seq!['$'] + resolved(s.skip(2), env)
    } else if is_ref_at(s) {
        env[tok_name(s)] + resolved(s.skip(tok_len(s) as int), env)
    } else {
        seq![s[0]] + resolved(s.drop_first(), env)
    }
}

#[via_fn]
proof fn resolved_decreases(s: Seq<char>, env: Map<Seq<char>, Seq<char>>) {
    if s.len() > 0 && s[0] == '$' && !escaped_at(s) && is_ref_at(s) {
        lemma_tok_len_le(s);
    }
}

/// The text of `s` with every dollar sign doubled, protecting it from the
/// scanner.
pub open spec fn escaped_form(s: Seq<char>) -> Seq<char>
    decreases s.len(),
{
    if s.len() == 0 {
        s
    } else if s[0] == '$' {
        seq!['$', '$'] + escaped_form(s.drop_first())
    } else {
        seq![s[0]] + escaped_form(s.drop_first())
    }
}

/// Dropping `j` then `k` characters from the front is the same as dropping
/// `j + k` at once.
pub proof fn lemma_skip_skip(s: Seq<char>, j: int, k: int)
    requires
        0 <= j,
        0 <= k,
        j + k <= s.len(),
    ensures
        s.skip(j).skip(k) == s.skip(j + k),
{
    assert(s.skip(j).skip(k) =~= s.skip(j + k));
}

/// A string without dollar signs is well-formed, holds no reference, and
/// unescaping leaves it unchanged.  Together with the contracts of
/// [`raw`](crate::raw_or::raw) and [`RawOr::render`](crate::raw_or::RawOr::render)
/// this says that a dollar-free string parses straight to a resolved
/// container whose rendered form is the original string.
pub proof fn lemma_plain_string(s: Seq<char>)
    requires
        forall|i: int| 0 <= i < s.len() ==> s[i] != '$',
    ensures
        wf(s),
        !has_ref(s),
        unescaped(s) == s,
    decreases s.len(),
{
    if s.len() > 0 {
        assert(s[0] != '$');
        lemma_plain_string(s.drop_first());
        assert(unescaped(s) == seq![s[0]] + unescaped(s.drop_first()));
        assert(seq![s[0]] + s.drop_first() =~= s);
    }
}

/// A string without dollar signs resolves to itself under every
/// environment: it references nothing, so no lookup can fail and nothing
/// is substituted.
pub proof fn lemma_plain_string_resolves(s: Seq<char>, env: Map<Seq<char>, Seq<char>>)
    requires
        forall|i: int| 0 <= i < s.len() ==> s[i] != '$',
    ensures
        refs_defined(s, env),
        resolved(s, env) == s,
    decreases s.len(),
{
    if s.len() > 0 {
        assert(s[0] != '$');
        lemma_plain_string_resolves(s.drop_first(), env);
        assert(resolved(s, env) == seq![s[0]] + resolved(s.drop_first(), env));
        assert(seq![s[0]] + s.drop_first() =~= s);
    }
}

/// Escaping and then unescaping is the identity: the escaped form of any
/// string is well-formed, holds no real reference, and unescapes back to
/// the original string.
pub proof fn lemma_escape_then_unescape(s: Seq<char>)
    ensures
        wf(escaped_form(s)),
        !has_ref(escaped_form(s)),
        unescaped(escaped_form(s)) == s,
    decreases s.len(),
{
    let e = escaped_form(s);
    if s.len() == 0 {
    } else if s[0] == '$' {
        lemma_escape_then_unescape(s.drop_first());
        let rest = escaped_form(s.drop_first());
        assert(e == seq!['$', '$'] + rest);
        assert(e[0] == '$' && e[1] == '$');
        assert(escaped_at(e));
        assert(e.skip(2) =~= rest);
        assert(tok_len(e) == 2) by {
            assert(!braced_at(e) && !bare_at(e));
        }
        assert(wf(e));
        assert(!has_ref(e));
        assert(unescaped(e) == seq!['$'] + unescaped(rest));
        assert(seq!['$'] + s.drop_first() =~= s);
    } else {
        lemma_escape_then_unescape(s.drop_first());
        let rest = escaped_form(s.drop_first());
        assert(e == seq![s[0]] + rest);
        assert(e[0] == s[0] && e[0] != '$');
        assert(e.drop_first() =~= rest);
        assert(wf(e));
        assert(!has_ref(e));
        assert(unescaped(e) == seq![s[0]] + unescaped(rest));
        assert(seq![s[0]] + s.drop_first() =~= s);
    }
}

/// An environment-lookup capability: a finite mapping from variable names
/// to values, supplied by the caller at resolution time.  The library
/// never reads process environment state on its own initiative; resolving
/// the same string against two different environments is therefore
/// possible and perfectly ordinary.
pub struct Environment {
    entries: Vec<(String, String)>,
}

spec fn env_map(es: Seq<(String, String)>) -> Map<Seq<char>, Seq<char>>
    decreases es.len(),
{
    if es.len() == 0 {
        Map::empty()
    } else {
        env_map(es.drop_last()).insert(es.last().0@, es.last().1@)
    }
}

impl View for Environment {
    type V = Map<Seq<char>, Seq<char>>;

    closed spec fn view(&self) -> Map<Seq<char>, Seq<char>> {
        env_map(self.entries@)
    }
}

/// Extending the entry list by one pair inserts that pair's mapping.
proof fn lemma_env_map_take_step(es: Seq<(String, String)>, j: int)
    requires
        0 <= j < es.len(),
    ensures
        env_map(es.take(j + 1)) == env_map(es.take(j)).insert(es[j].0@, es[j].1@),
{
    assert(es.take(j + 1).drop_last() =~= es.take(j));
    assert(es.take(j + 1).last() == es[j]);
}

impl Environment {
    /// An environment that defines no variables.
    pub fn new() -> (e: Environment)
        ensures
            e@ == Map::<Seq<char>, Seq<char>>::empty(),
    {
        Environment { entries: Vec::new() }
    }

    /// Define `name` to be `value`, overriding any earlier definition.
    pub fn set(&mut self, name: &str, value: &str)
        ensures
            final(self)@ == old(self)@.insert(name@, value@),
    {
        self.entries.push((String::from_str(name), String::from_str(value)));
        proof {
            assert(self.entries@.drop_last() =~= old(self).entries@);
        }
    }

    /// Look `name` up, returning its value exactly when this environment
    /// defines it.
    pub fn lookup(&self, name: &str) -> (r: Option<String>)
        ensures
            match r {
                Some(v) => self@.contains_key(name@) && v@ == self@[name@],
                None => !self@.contains_key(name@),
            },
    {
        let key = String::from_str(name);
        let mut j = self.entries.len();
        proof {
            assert(self.entries@.take(j as int) =~= self.entries@);
        }
        while j > 0
            invariant
                j <= self.entries.len(),
                key@ == name@,
                env_map(self.entries@).contains_key(name@) == env_map(
                    self.entries@.take(j as int),
                ).contains_key(name@),
                env_map(self.entries@).contains_key(name@) ==> env_map(
                    self.entries@.take(j as int),
                )[name@] == env_map(self.entries@)[name@],
            decreases j,
        {
            j = j - 1;
            proof {
                lemma_env_map_take_step(self.entries@, j as int);
            }
            let entry = &self.entries[j];
            if entry.0 == key {
                return Some(entry.1.clone());
            }
        }
        proof {
            assert(self.entries@.take(0) =~= Seq::<(String, String)>::empty());
        }
        None
    }
}

/// The three operating modes that share the scanning algorithm.
#[derive(Clone, Copy, PartialEq, Eq, Structural)]
enum Mode {
    /// Replace references with values from the environment.
    Interpolate,
    /// Replace escaped pairs only; fail on any real reference.
    Unescape,
    /// Check syntax only; discard any replacement text.
    Validate,
}

/// The classification of the token starting at one scan position.
enum ScanTok {
    /// An ordinary literal character.
    Lit,
    /// An escaped dollar pair.
    Esc,
    /// A bare or braced variable reference; the name occupies
    /// `name_start..name_end` and the whole token ends at `tok_end`.
    Refer { name_start: usize, name_end: usize, tok_end: usize },
    /// An invalid dollar token.
    Bad,
}

/// True exactly when `c` may begin a variable name.
fn is_ident_start_char(c: char) -> (b: bool)
    ensures
        b == is_ident_start(c),
{
    ('A' as u32 <= c as u32 && c as u32 <= 'Z' as u32) || ('a' as u32 <= c as u32 && c as u32
        <= 'z' as u32) || c == '_'
}

/// True exactly when `c` may continue a variable name.
fn is_ident_char_exec(c: char) -> (b: bool)
    ensures
        b == is_ident_char(c),
{
    is_ident_start_char(c) || ('0' as u32 <= c as u32 && c as u32 <= '9' as u32)
}

/// Index just past the run of identifier characters beginning at `start`.
fn ident_end(s: &str, start: usize) -> (e: usize)
    requires
        start <= s@.len(),
    ensures
        start <= e <= s@.len(),
        e - start == ident_run(s@.skip(start as int)),
{
    let n = s.unicode_len();
    let mut j = start;
    while j < n && is_ident_char_exec(s.get_char(j))
        invariant
            start <= j <= n,
            n == s@.len(),
            ident_run(s@.skip(start as int)) == (j - start) + ident_run(s@.skip(j as int)),
        decreases n - j,
    {
        proof {
            lemma_skip_skip(s@, j as int, 1);
            assert(s@.skip(j as int).drop_first() =~= s@.skip(j as int + 1));
            assert(s@.skip(j as int)[0] == s@[j as int]);
        }
        j = j + 1;
    }
    proof {
        if j < n {
            assert(s@.skip(j as int)[0] == s@[j as int]);
            assert(ident_run(s@.skip(j as int)) == 0);
        } else {
            assert(s@.skip(j as int) =~= Seq::<char>::empty());
        }
    }
    j
}

/// Classify the token that starts at position `i`.  Every operating mode
/// uses this one scanner, so all modes tokenize identically.
fn scan_token(s: &str, i: usize) -> (t: ScanTok)
    requires
        i < s@.len(),
    ensures
        ({
            let suf = s@.skip(i as int);
            match t {
                ScanTok::Lit => s@[i as int] != '$',
                ScanTok::Esc => escaped_at(suf),
                ScanTok::Refer { name_start, name_end, tok_end } => is_ref_at(suf) && tok_end == i
                    + tok_len(suf) && i < tok_end <= s@.len() && i <= name_start <= name_end
                    <= s@.len() && s@.subrange(name_start as int, name_end as int) == tok_name(suf),
                ScanTok::Bad => s@[i as int] == '$' && !dollar_ok(suf),
            }
        }),
{
    let ghost suf = s@.skip(i as int);
    proof {
        assert(suf[0] == s@[i as int]);
    }
    let c = s.get_char(i);
    if c != '$' {
        return ScanTok::Lit;
    }
    let n = s.unicode_len();
    if i + 1 >= n {
        return ScanTok::Bad;
    }
    proof {
        assert(suf[1] == s@[i as int + 1]);
    }
    let c1 = s.get_char(i + 1);
    if c1 == '$' {
        ScanTok::Esc
    } else if c1 == '{' {
        if i + 2 >= n {
            return ScanTok::Bad;
        }
        proof {
            assert(suf[2] == s@[i as int + 2]);
        }
        let c2 = s.get_char(i + 2);
        if !is_ident_start_char(c2) {
            return ScanTok::Bad;
        }
        let e = ident_end(s, i + 2);
        proof {
            lemma_skip_skip(s@, i as int, 2);
            assert(suf.skip(2) == s@.skip(i as int + 2));
        }
        if e < n && s.get_char(e) == '}' {
            proof {
                assert(suf[2 + ident_run(suf.skip(2)) as int] == s@[e as int]);
                assert(braced_at(suf));
                assert(s@.subrange(i as int + 2, e as int) =~= suf.subrange(
                    2,
                    2 + ident_run(suf.skip(2)) as int,
                ));
            }
            ScanTok::Refer { name_start: i + 2, name_end: e, tok_end: e + 1 }
        } else {
            proof {
                if 2 + ident_run(suf.skip(2)) < suf.len() {
                    assert(suf[2 + ident_run(suf.skip(2)) as int] == s@[e as int]);
                }
            }
            ScanTok::Bad
        }
    } else if is_ident_start_char(c1) {
        let e = ident_end(s, i + 1);
        proof {
            lemma_skip_skip(s@, i as int, 1);
            assert(suf.skip(1) == s@.skip(i as int + 1));
            assert(bare_at(suf));
            assert(!braced_at(suf));
            assert(s@.subrange(i as int + 1, e as int) =~= suf.subrange(
                1,
                1 + ident_run(suf.skip(1)) as int,
            ));
        }
        ScanTok::Refer { name_start: i + 1, name_end: e, tok_end: e }
    } else {
        ScanTok::Bad
    }
}

/// True exactly when the whole of `s` is a well-formed interpolation
/// string.
fn check_syntax(s: &str) -> (ok: bool)
    ensures
        ok == wf(s@),
{
    let n = s.unicode_len();
    let mut i: usize = 0;
    proof {
        assert(s@.skip(0) =~= s@);
    }
    while i < n
        invariant
            i <= n,
            n == s@.len(),
            wf(s@) == wf(s@.skip(i as int)),
        decreases n - i,
    {
        let ghost suf = s@.skip(i as int);
        match scan_token(s, i) {
            ScanTok::Lit => {
                proof {
                    lemma_skip_skip(s@, i as int, 1);
                    assert(suf[0] == s@[i as int]);
                    assert(suf.drop_first() =~= s@.skip(i as int + 1));
                }
                i = i + 1;
            },
            ScanTok::Esc => {
                proof {
                    assert(tok_len(suf) == 2);
                    lemma_skip_skip(s@, i as int, 2);
                }
                i = i + 2;
            },
            ScanTok::Refer { name_start: _, name_end: _, tok_end } => {
                proof {
                    assert(suf[0] == s@[i as int]);
                    lemma_tok_len_le(suf);
                    lemma_skip_skip(s@, i as int, tok_len(suf) as int);
                }
                i = tok_end;
            },
            ScanTok::Bad => {
                return false;
            },
        }
    }
    proof {
        assert(s@.skip(n as int) =~= Seq::<char>::empty());
    }
    true
}

/// The single scanning pass behind resolving, unescaping and validating.
/// A syntax error anywhere in the input fails the whole input in every
/// mode; only then does the mode decide what a reference token means.
fn interpolate_helper(input: &str, mode: Mode, env: &Environment) -> (r: Result<
    String,
    InterpolationError,
>)
    ensures
        ({
            let s = input@;
            match r {
                Ok(out) => wf(s) && (mode == Mode::Unescape ==> !has_ref(s) && out@ == unescaped(s))
                    && (mode == Mode::Interpolate ==> refs_defined(s, env@) && out@ == resolved(
                    s,
                    env@,
                )),
                Err(e) => match e {
                    InterpolationError::InvalidSyntax(t) => !wf(s) && t@ == s,
                    InterpolationError::InterpolationDisabled(t) => mode == Mode::Unescape && wf(s)
                        && has_ref(s) && t@ == s,
                    InterpolationError::UndefinedVariable(v) => mode == Mode::Interpolate && wf(s)
                        && !refs_defined(s, env@) && v@ == first_undefined(s, env@),
                    InterpolationError::UnparsableValue(_) => false,
                },
            }
        }),
{
    if !check_syntax(input) {
        return Err(InterpolationError::InvalidSyntax(String::from_str(input)));
    }
    if mode == Mode::Validate {
        return Ok(String::new());
    }
    let ghost s = input@;
    let n = input.unicode_len();
    let mut out = String::new();
    let mut i: usize = 0;
    proof {
        assert(s.skip(0) =~= s);
        assert(Seq::<char>::empty() + unescaped(s) =~= unescaped(s));
        assert(Seq::<char>::empty() + resolved(s, env@) =~= resolved(s, env@));
    }
    while i < n
        invariant
            i <= n,
            n == s.len(),
            s == input@,
            wf(s),
            wf(s.skip(i as int)),
            mode == Mode::Unescape || mode == Mode::Interpolate,
            mode == Mode::Unescape ==> has_ref(s) == has_ref(s.skip(i as int)) && out@ + unescaped(
                s.skip(i as int),
            ) == unescaped(s),
            mode == Mode::Interpolate ==> refs_defined(s, env@) == refs_defined(
                s.skip(i as int),
                env@,
            ) && first_undefined(s, env@) == first_undefined(s.skip(i as int), env@) && out@
                + resolved(s.skip(i as int), env@) == resolved(s, env@),
        decreases n - i,
    {
        let ghost suf = s.skip(i as int);
        proof {
            assert(suf[0] == s[i as int]);
        }
        match scan_token(input, i) {
            ScanTok::Lit => {
                let piece = input.substring_char(i, i + 1);
                out.append(piece);
                proof {
                    lemma_skip_skip(s, i as int, 1);
                    assert(suf.drop_first() =~= s.skip(i as int + 1));
                    assert(piece@ =~= seq![suf[0]]);
                }
                i = i + 1;
            },
            ScanTok::Esc => {
                out.append("$");
                proof {
                    reveal_strlit("$");
                    assert("$"@ =~= seq!['$']);
                    assert(tok_len(suf) == 2);
                    lemma_skip_skip(s, i as int, 2);
                }
                i = i + 2;
            },
            ScanTok::Refer { name_start, name_end, tok_end } => {
                proof {
                    lemma_tok_len_le(suf);
                    lemma_skip_skip(s, i as int, tok_len(suf) as int);
                }
                if mode == Mode::Unescape {
                    return Err(InterpolationError::InterpolationDisabled(String::from_str(input)));
                }
                let name = input.substring_char(name_start, name_end);
                proof {
                    assert(name@ == tok_name(suf));
                }
                match env.lookup(name) {
                    Some(v) => {
                        out.append(v.as_str());
                        i = tok_end;
                    },
                    None => {
                        return Err(InterpolationError::UndefinedVariable(String::from_str(name)));
                    },
                }
            },
            ScanTok::Bad => {
                proof {
                    assert(!wf(suf));
                    assert(false);
                }
                return Err(InterpolationError::InvalidSyntax(String::from_str(input)));
            },
        }
    }
    proof {
        assert(s.skip(n as int) =~= Seq::<char>::empty());
    }
    Ok(out)
}

/// Resolve every reference in `input` against `env`, unescaping escaped
/// dollar pairs along the way.  Fails with a syntax error on a malformed
/// input and with an undefined-variable error naming the leftmost
/// undefined variable; unlike lenient shell tools it never substitutes an
/// empty string for a missing variable.
pub fn interpolate_env(input: &str, env: &Environment) -> (r: Result<String, InterpolationError>)
    ensures
        match r {
            Ok(out) => wf(input@) && refs_defined(input@, env@) && out@ == resolved(input@, env@),
            Err(e) => match e {
                InterpolationError::InvalidSyntax(t) => !wf(input@) && t@ == input@,
                InterpolationError::UndefinedVariable(v) => wf(input@) && !refs_defined(
                    input@,
                    env@,
                ) && v@ == first_undefined(input@, env@),
                _ => false,
            },
        },
{
    interpolate_helper(input, Mode::Interpolate, env)
}

/// Replace every escaped dollar pair in `input` with a single dollar
/// sign, without touching any environment; fails if the string contains a
/// real reference, or is malformed.
pub fn unescape_str(input: &str) -> (r: Result<String, InterpolationError>)
    ensures
        match r {
            Ok(out) => wf(input@) && !has_ref(input@) && out@ == unescaped(input@),
            Err(e) => match e {
                InterpolationError::InvalidSyntax(t) => !wf(input@) && t@ == input@,
                InterpolationError::InterpolationDisabled(t) => wf(input@) && has_ref(input@) && t@
                    == input@,
                _ => false,
            },
        },
{
    let env = Environment::new();
    interpolate_helper(input, Mode::Unescape, &env)
}

/// Check the reference syntax of `input` without resolving anything:
/// escaped pairs and well-formed references are accepted whether or not
/// the referenced variables exist anywhere.
pub fn validate(input: &str) -> (r: Result<(), InterpolationError>)
    ensures
        r is Ok <==> wf(input@),
        r matches Err(e) ==> e matches InterpolationError::InvalidSyntax(t) && t@ == input@,
{
    let env = Environment::new();
    match interpolate_helper(input, Mode::Validate, &env) {
        Ok(_) => Ok(()),
        Err(e) => Err(e),
    }
}

/// Escape interpolation sequences in a literal string by doubling every
/// dollar sign, making it safe to hand to the scanner.
pub fn escape_str(input: &str) -> (r: String)
    ensures
        r@ == escaped_form(input@),
{
    let n = input.unicode_len();
    let mut out = String::new();
    let mut i: usize = 0;
    proof {
        assert(input@.skip(0) =~= input@);
        assert(Seq::<char>::empty() + escaped_form(input@) =~= escaped_form(input@));
    }
    while i < n
        invariant
            i <= n,
            n == input@.len(),
            out@ + escaped_form(input@.skip(i as int)) == escaped_form(input@),
        decreases n - i,
    {
        let ghost suf = input@.skip(i as int);
        proof {
            assert(suf[0] == input@[i as int]);
            lemma_skip_skip(input@, i as int, 1);
            assert(suf.drop_first() =~= input@.skip(i as int + 1));
        }
        let c = input.get_char(i);
        if c == '$' {
            out.append("$$");
            proof {
                reveal_strlit("$$");
                assert("$$"@ =~= seq!['$', '$']);
            }
        } else {
            let piece = input.substring_char(i, i + 1);
            out.append(piece);
            proof {
                assert(piece@ =~= seq![suf[0]]);
            }
        }
        i = i + 1;
    }
    proof {
        assert(input@.skip(n as int) =~= Seq::<char>::empty());
    }
    out
}

} // verus!
