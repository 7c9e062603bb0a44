use vstd::prelude::*;
use vstd::string::StrSliceExecFns;

verus! {

/// A debugger command, as parsed from one input line.
#[derive(Debug, Clone, Copy, PartialEq, Eq, Structural)]
pub enum DebuggerCommand {
    /// `bp`: list the breakpoints.
    BreakpointsPrint,
    /// `bp add N`: set a breakpoint at address N.
    BreakpointAdd(usize),
    /// `bp rem N`: remove the breakpoint at address N.
    BreakpointRemove(usize),
    /// `bp true` / `bp false`: turn breakpoint checking on or off.
    BreakpointsEnabled(bool),
    /// `reg`: show the registers.
    RegistersPrint,
    /// `reg write I V`: write V, taken as a 16-bit word, to register I.
    RegisterWrite(usize, u16),
    /// `stack size`: show the stack depth.
    StackSizePrint,
    /// `stack`: show the stack, bottom first.
    StackPrint,
    /// `trace`: show the trace lines.
    TracePrint,
    /// `trace true` / `trace false`: turn trace recording on or off.
    TraceEnabled(bool),
    /// `trace size`: show the number of trace lines.
    TraceSizePrint,
    /// `trace size N`: set the trace capacity to N lines.
    TraceResize(usize),
    /// `trace clear`: drop the trace lines.
    TraceClear,
    /// `cp`: show the code pointer.
    CodePointerPrint,
    /// `cp write N`: move the code pointer to N.
    CodePointerWrite(usize),
    /// `clear`: scroll the terminal with blank lines.
    ConsoleClear,
    /// `cnt`: resume execution.
    Continue,
    /// Anything else.
    Unknown,
}

/// Names the command a rule of the table builds.
#[derive(Debug, Clone, Copy, PartialEq, Eq, Structural)]
pub enum CommandId {
    BreakpointsPrint,
    BreakpointAdd,
    BreakpointRemove,
    BreakpointsEnabled,
    RegistersPrint,
    RegisterWrite,
    StackSizePrint,
    StackPrint,
    TracePrint,
    TraceEnabled,
    TraceSizePrint,
    TraceResize,
    TraceClear,
    CodePointerPrint,
    CodePointerWrite,
    ConsoleClear,
    Continue,
}

/// What one token must be for a rule to match.
pub enum Rule {
    /// Exactly this word.
    EqualStr(&'static str),
    /// An unsigned decimal number.
    AnyNumber,
    /// `true` or `false`.
    AnyBool,
}

pub enum RuleView {
    EqualStr(Seq<char>),
    AnyNumber,
    AnyBool,
}

impl View for Rule {
    type V = RuleView;

    open spec fn view(&self) -> RuleView {
        match self {
            Rule::EqualStr(s) => RuleView::EqualStr(s@),
            Rule::AnyNumber => RuleView::AnyNumber,
            Rule::AnyBool => RuleView::AnyBool,
        }
    }
}

/// A value taken from a token by `AnyNumber` or `AnyBool`.
#[derive(Debug, Clone, Copy, PartialEq, Eq, Structural)]
pub enum Parameter {
    Usize(usize),
    Bool(bool),
}

/// Whether `c` separates tokens: the Unicode White_Space characters.
pub open spec fn is_space(c: char) -> bool {
    let v = c as u32;
    ||| 0x9 <= v <= 0xd
    ||| v == 0x20
    ||| v == 0x85
    ||| v == 0xa0
    ||| v == 0x1680
    ||| 0x2000 <= v <= 0x200a
    ||| v == 0x2028
    ||| v == 0x2029
    ||| v == 0x202f
    ||| v == 0x205f
    ||| v == 0x3000
}

/// The finished tokens of `s`, and the token still open at its end.
pub open spec fn scan(s: Seq<char>) -> (Seq<Seq<char>>, Seq<char>)
    decreases s.len(),
{
    if s.len() == 0 {
        (Seq::empty(), Seq::empty())
    } else {
        let (done, cur) = scan(s.drop_last());
        if is_space(s.last()) {
            if cur.len() > 0 {
                (done.push(cur), Seq::empty())
            } else {
                (done, Seq::empty())
            }
        } else {
            (done, cur.push(s.last()))
        }
    }
}

/// The maximal runs of non-space characters of `s`, in order.
pub open spec fn split_whitespace(s: Seq<char>) -> Seq<Seq<char>> {
    let (done, cur) = scan(s);
    if cur.len() > 0 {
        done.push(cur)
    } else {
        done
    }
}

pub open spec fn is_digit(c: char) -> bool {
    '0' <= c && c <= '9'
}

/// The number the decimal digits `d` spell.
pub open spec fn digits_value(d: Seq<char>) -> nat
    decreases d.len(),
{
    if d.len() == 0 {
        0
    } else {
        digits_value(d.drop_last()) * 10 + (d.last() as nat - '0' as nat) as nat
    }
}

/// The digits of a number token: all of it, or all after a leading `+`.
pub open spec fn unsigned_digits(t: Seq<char>) -> Seq<char> {
    if t.len() > 0 && t[0] == '+' {
        t.drop_first()
    } else {
        t
    }
}

/// The unsigned number a token spells: an optional `+`, then at least one
/// decimal digit, with a value that fits in `usize`.
pub open spec fn parse_number(t: Seq<char>) -> Option<usize> {
    let d = unsigned_digits(t);
    if d.len() > 0 && (forall|i: int| 0 <= i < d.len() ==> is_digit(#[trigger] d[i]))
        && digits_value(d) <= usize::MAX {
        Some(digits_value(d) as usize)
    } else {
        None
    }
}

pub open spec fn word_true() -> Seq<char> {
    seq!['t', 'r', 'u', 'e']
}

pub open spec fn word_false() -> Seq<char> {
    seq!['f', 'a', 'l', 's', 'e']
}

/// Whether a rule matches a token, and the parameter it takes from it:
/// `None` for no match, `Some(None)` for a match that takes nothing.
pub open spec fn match_rule(rule: RuleView, token: Seq<char>) -> Option<Option<Parameter>> {
    match rule {
        RuleView::EqualStr(word) => if word == token {
            Some(None)
        } else {
            None
        },
        RuleView::AnyBool => if token == word_true() {
            Some(Some(Parameter::Bool(true)))
        } else if token == word_false() {
            Some(Some(Parameter::Bool(false)))
        } else {
            None
        },
        RuleView::AnyNumber => match parse_number(token) {
            Some(n) => Some(Some(Parameter::Usize(n))),
            None => None,
        },
    }
}

/// Matches rules against tokens position by position; on success, the
/// parameters taken, in order.
pub open spec fn match_rules(rules: Seq<RuleView>, tokens: Seq<Seq<char>>) -> Option<
    Seq<Parameter>,
>
    decreases rules.len(),
{
    if rules.len() != tokens.len() {
        None
    } else if rules.len() == 0 {
        Some(Seq::empty())
    } else {
        match match_rules(rules.drop_last(), tokens.drop_last()) {
            None => None,
            Some(params) => match match_rule(rules.last(), tokens.last()) {
                None => None,
                Some(None) => Some(params),
                Some(Some(p)) => Some(params.push(p)),
            },
        }
    }
}

/// The command a rule builds from the parameters it took.
pub open spec fn build(id: CommandId, params: Seq<Parameter>) -> DebuggerCommand {
    let first = if params.len() > 0 {
        params[0]
    } else {
        Parameter::Bool(false)
    };
    let second = if params.len() > 1 {
        params[1]
    } else {
        Parameter::Bool(false)
    };
    match id {
        CommandId::BreakpointsPrint => DebuggerCommand::BreakpointsPrint,
        CommandId::BreakpointAdd => match first {
            Parameter::Usize(n) => DebuggerCommand::BreakpointAdd(n),
            _ => DebuggerCommand::Unknown,
        },
        CommandId::BreakpointRemove => match first {
            Parameter::Usize(n) => DebuggerCommand::BreakpointRemove(n),
            _ => DebuggerCommand::Unknown,
        },
        CommandId::BreakpointsEnabled => match first {
            Parameter::Bool(b) => DebuggerCommand::BreakpointsEnabled(b),
            _ => DebuggerCommand::Unknown,
        },
        CommandId::RegistersPrint => DebuggerCommand::RegistersPrint,
        CommandId::RegisterWrite => match (first, second) {
            (Parameter::Usize(i), Parameter::Usize(v)) => DebuggerCommand::RegisterWrite(
                i,
                v as u16,
            ),
            _ => DebuggerCommand::Unknown,
        },
        CommandId::StackSizePrint => DebuggerCommand::StackSizePrint,
        CommandId::StackPrint => DebuggerCommand::StackPrint,
        CommandId::TracePrint => DebuggerCommand::TracePrint,
        CommandId::TraceEnabled => match first {
            Parameter::Bool(b) => DebuggerCommand::TraceEnabled(b),
            _ => DebuggerCommand::Unknown,
        },
        CommandId::TraceSizePrint => DebuggerCommand::TraceSizePrint,
        CommandId::TraceResize => match first {
            Parameter::Usize(n) => DebuggerCommand::TraceResize(n),
            _ => DebuggerCommand::Unknown,
        },
        CommandId::TraceClear => DebuggerCommand::TraceClear,
        CommandId::CodePointerPrint => DebuggerCommand::CodePointerPrint,
        CommandId::CodePointerWrite => match first {
            Parameter::Usize(n) => DebuggerCommand::CodePointerWrite(n),
            _ => DebuggerCommand::Unknown,
        },
        CommandId::ConsoleClear => DebuggerCommand::ConsoleClear,
        CommandId::Continue => DebuggerCommand::Continue,
    }
}

/// The command of the first rule of `table` that matches all tokens.
pub open spec fn first_match(
    table: Seq<(CommandId, Seq<RuleView>)>,
    tokens: Seq<Seq<char>>,
) -> DebuggerCommand
    decreases table.len(),
{
    if table.len() == 0 {
        DebuggerCommand::Unknown
    } else {
        match match_rules(table[0].1, tokens) {
            Some(params) => build(table[0].0, params),
            None => first_match(table.drop_first(), tokens),
        }
    }
}

pub open spec fn word(s: Seq<char>) -> RuleView {
    RuleView::EqualStr(s)
}

pub open spec fn bp() -> RuleView {
    word(seq!['b', 'p'])
}

pub open spec fn reg() -> RuleView {
    word(seq!['r', 'e', 'g'])
}

pub open spec fn stack() -> RuleView {
    word(seq!['s', 't', 'a', 'c', 'k'])
}

pub open spec fn trace() -> RuleView {
    word(seq!['t', 'r', 'a', 'c', 'e'])
}

pub open spec fn cp() -> RuleView {
    word(seq!['c', 'p'])
}

pub open spec fn write() -> RuleView {
    word(seq!['w', 'r', 'i', 't', 'e'])
}

pub open spec fn size() -> RuleView {
    word(seq!['s', 'i', 'z', 'e'])
}

pub open spec fn clear() -> RuleView {
    word(seq!['c', 'l', 'e', 'a', 'r'])
}

/// The debugger's command grammar, one rule per command, in matching order.
pub open spec fn rule_table() -> Seq<(CommandId, Seq<RuleView>)> {
    let num = RuleView::AnyNumber;
    let flag = RuleView::AnyBool;
    seq![
        (CommandId::BreakpointsPrint, seq![bp()]),
        (CommandId::BreakpointAdd, seq![bp(), word(seq!['a', 'd', 'd']), num]),
        (CommandId::BreakpointRemove, seq![bp(), word(seq!['r', 'e', 'm']), num]),
        (CommandId::BreakpointsEnabled, seq![bp(), flag]),
        (CommandId::RegistersPrint, seq![reg()]),
        (CommandId::RegisterWrite, seq![reg(), write(), num, num]),
        (CommandId::StackSizePrint, seq![stack(), size()]),
        (CommandId::StackPrint, seq![stack()]),
        (CommandId::TracePrint, seq![trace()]),
        (CommandId::TraceEnabled, seq![trace(), flag]),
        (CommandId::TraceSizePrint, seq![trace(), size()]),
        (CommandId::TraceResize, seq![trace(), size(), num]),
        (CommandId::TraceClear, seq![trace(), clear()]),
        (CommandId::CodePointerPrint, seq![cp()]),
        (CommandId::CodePointerWrite, seq![cp(), write(), num]),
        (CommandId::ConsoleClear, seq![clear()]),
        (CommandId::Continue, seq![word(seq!['c', 'n', 't'])]),
    ]
}

/// The command a line denotes.
pub open spec fn parse_line(line: Seq<char>) -> DebuggerCommand {
    first_match(rule_table(), split_whitespace(line))
}

pub open spec fn rule_views(rules: Seq<Rule>) -> Seq<RuleView> {
    rules.map_values(|r: Rule| r@)
}

pub open spec fn token_seqs(tokens: Seq<Vec<char>>) -> Seq<Seq<char>> {
    tokens.map_values(|t: Vec<char>| t@)
}

pub open spec fn registry_view(registry: Seq<(CommandId, Vec<Rule>)>) -> Seq<
    (CommandId, Seq<RuleView>),
> {
    registry.map_values(|e: (CommandId, Vec<Rule>)| (e.0, rule_views(e.1@)))
}

/// If a prefix of the rules fails to match, the whole rule list fails.
proof fn lemma_match_prefix_fails(rules: Seq<RuleView>, tokens: Seq<Seq<char>>, k: int)
    requires
        rules.len() == tokens.len(),
        0 <= k <= rules.len(),
        match_rules(rules.subrange(0, k), tokens.subrange(0, k)) is None,
    ensures
        match_rules(rules, tokens) is None,
    decreases rules.len() - k,
{
    if k < rules.len() {
        assert(rules.subrange(0, k + 1).drop_last() =~= rules.subrange(0, k));
        assert(tokens.subrange(0, k + 1).drop_last() =~= tokens.subrange(0, k));
        lemma_match_prefix_fails(rules, tokens, k + 1);
    } else {
        assert(rules.subrange(0, k) =~= rules);
        assert(tokens.subrange(0, k) =~= tokens);
    }
}

/// Whether `c` separates tokens.
pub fn is_space_char(c: char) -> (r: bool)
    ensures
        r == is_space(c),
{
    let v = c as u32;
    (0x9 <= v && v <= 0xd) || v == 0x20 || v == 0x85 || v == 0xa0 || v == 0x1680 || (0x2000 <= v
        && v <= 0x200a) || v == 0x2028 || v == 0x2029 || v == 0x202f || v == 0x205f || v == 0x3000
}

/// Splits a line into its whitespace-separated tokens.
pub fn split_tokens(line: &str) -> (r: Vec<Vec<char>>)
    ensures
        token_seqs(r@) == split_whitespace(line@),
{
    let n = line.unicode_len();
    let mut done: Vec<Vec<char>> = Vec::new();
    let mut cur: Vec<char> = Vec::new();
    let mut i: usize = 0;
    while i < n
        invariant
            n == line@.len(),
            i <= n,
            (token_seqs(done@), cur@) == scan(line@.subrange(0, i as int)),
        decreases n - i,
    {
        let c = line.get_char(i);
        let ghost prefix = line@.subrange(0, i + 1);
        assert(prefix.drop_last() =~= line@.subrange(0, i as int));
        assert(prefix.last() == c);
        let ghost old_done = done@;
        if is_space_char(c) {
            if cur.len() > 0 {
                let finished = cur;
                cur = Vec::new();
                done.push(finished);
                assert(token_seqs(done@) =~= token_seqs(old_done).push(finished@));
            }
            assert(cur@ =~= Seq::<char>::empty());
        } else {
            cur.push(c);
        }
        i = i + 1;
    }
    assert(line@.subrange(0, i as int) =~= line@);
    if cur.len() > 0 {
        let ghost old_done = done@;
        let finished = cur;
        done.push(finished);
        assert(token_seqs(done@) =~= token_seqs(old_done).push(finished@));
    }
    done
}

/// Whether token `t` is the word `w`.
pub fn token_is(t: &Vec<char>, w: &str) -> (r: bool)
    ensures
        r == (t@ == w@),
{
    let n = w.unicode_len();
    if t.len() != n {
        return false;
    }
    let mut i: usize = 0;
    while i < n
        invariant
            n == w@.len(),
            t@.len() == n,
            i <= n,
            forall|j: int| 0 <= j < i ==> t@[j] == w@[j],
        decreases n - i,
    {
        if t[i] != w.get_char(i) {
            return false;
        }
        i = i + 1;
    }
    assert(t@ =~= w@);
    true
}

/// The unsigned number a token spells, if any.
pub fn parse_number_token(t: &Vec<char>) -> (r: Option<usize>)
    ensures
        r == parse_number(t@),
{
    let ghost d = unsigned_digits(t@);
    let start: usize = if t.len() > 0 && t[0] == '+' { 1 } else { 0 };
    assert(d =~= t@.subrange(start as int, t@.len() as int));
    if start == t.len() {
        return None;
    }
    let mut value: usize = 0;
    let mut overflow = false;
    let mut i: usize = start;
    while i < t.len()
        invariant
            start <= i <= t@.len(),
            d == t@.subrange(start as int, t@.len() as int),
            d == unsigned_digits(t@),
            forall|j: int| start <= j < i ==> is_digit(#[trigger] t@[j]),
            !overflow ==> value == digits_value(t@.subrange(start as int, i as int)),
            overflow ==> digits_value(t@.subrange(start as int, i as int)) > usize::MAX,
        decreases t@.len() - i,
    {
        let c = t[i];
        if !('0' <= c && c <= '9') {
            assert(d[i - start] == c);
            assert(!is_digit(d[i - start]));
            return None;
        }
        let digit = (c as u32 - '0' as u32) as usize;
        let ghost prefix = t@.subrange(start as int, i + 1);
        assert(prefix.drop_last() =~= t@.subrange(start as int, i as int));
        assert(digits_value(prefix) == digits_value(t@.subrange(start as int, i as int)) * 10
            + digit);
        if !overflow {
            if value > (usize::MAX - digit) / 10 {
                assert(value * 10 + digit > usize::MAX) by (nonlinear_arith)
                    requires
                        value > (usize::MAX - digit) / 10,
                        digit <= 9,
                ;
                overflow = true;
            } else {
                assert(value * 10 + digit <= usize::MAX) by (nonlinear_arith)
                    requires
                        value <= (usize::MAX - digit) / 10,
                        digit <= 9,
                ;
                value = value * 10 + digit;
            }
        } else {
            assert(digits_value(prefix) >= digits_value(t@.subrange(start as int, i as int)))
                by (nonlinear_arith)
                requires
                    digits_value(prefix) == digits_value(t@.subrange(start as int, i as int)) * 10
                        + digit,
            ;
        }
        i = i + 1;
    }
    assert(t@.subrange(start as int, i as int) =~= d);
    assert(forall|j: int| 0 <= j < d.len() ==> is_digit(#[trigger] d[j]) == is_digit(t@[start + j]));
    if overflow {
        None
    } else {
        Some(value)
    }
}

/// The debugger's command parser: a table of rules, tried in order.
pub struct DebugCommandParser {
    rule_registry: Vec<(CommandId, Vec<Rule>)>,
}

fn rules1(a: Rule) -> (r: Vec<Rule>)
    ensures
        rule_views(r@) == seq![a@],
{
    let r = vec![a];
    assert(rule_views(r@) =~= seq![a@]);
    r
}

fn rules2(a: Rule, b: Rule) -> (r: Vec<Rule>)
    ensures
        rule_views(r@) == seq![a@, b@],
{
    let r = vec![a, b];
    assert(rule_views(r@) =~= seq![a@, b@]);
    r
}

fn rules3(a: Rule, b: Rule, c: Rule) -> (r: Vec<Rule>)
    ensures
        rule_views(r@) == seq![a@, b@, c@],
{
    let r = vec![a, b, c];
    assert(rule_views(r@) =~= seq![a@, b@, c@]);
    r
}

fn rules4(a: Rule, b: Rule, c: Rule, d: Rule) -> (r: Vec<Rule>)
    ensures
        rule_views(r@) == seq![a@, b@, c@, d@],
{
    let r = vec![a, b, c, d];
    assert(rule_views(r@) =~= seq![a@, b@, c@, d@]);
    r
}

impl DebugCommandParser {
    pub closed spec fn wf(&self) -> bool {
        registry_view(self.rule_registry@) == rule_table()
    }

    pub fn new() -> (r: Self)
        ensures
            r.wf(),
    {
        Self { rule_registry: Self::create_matching_rules() }
    }

    fn create_matching_rules() -> (r: Vec<(CommandId, Vec<Rule>)>)
        ensures
            registry_view(r@) == rule_table(),
    {
        proof {
            reveal_strlit("bp");
            reveal_strlit("add");
            reveal_strlit("rem");
            reveal_strlit("reg");
            reveal_strlit("write");
            reveal_strlit("stack");
            reveal_strlit("size");
            reveal_strlit("trace");
            reveal_strlit("clear");
            reveal_strlit("cp");
            reveal_strlit("cnt");
            assert("bp"@ =~= seq!['b', 'p']);
            assert("add"@ =~= seq!['a', 'd', 'd']);
            assert("rem"@ =~= seq!['r', 'e', 'm']);
            assert("reg"@ =~= seq!['r', 'e', 'g']);
            assert("write"@ =~= seq!['w', 'r', 'i', 't', 'e']);
            assert("stack"@ =~= seq!['s', 't', 'a', 'c', 'k']);
            assert("size"@ =~= seq!['s', 'i', 'z', 'e']);
            assert("trace"@ =~= seq!['t', 'r', 'a', 'c', 'e']);
            assert("clear"@ =~= seq!['c', 'l', 'e', 'a', 'r']);
            assert("cp"@ =~= seq!['c', 'p']);
            assert("cnt"@ =~= seq!['c', 'n', 't']);
        }
        let r = vec![
            (CommandId::BreakpointsPrint, rules1(Rule::EqualStr("bp"))),
            (
                CommandId::BreakpointAdd,
                rules3(
                    Rule::EqualStr("bp"),
                    Rule::EqualStr("add"),
                    Rule::AnyNumber,
                ),
            ),
            (
                CommandId::BreakpointRemove,
                rules3(
                    Rule::EqualStr("bp"),
                    Rule::EqualStr("rem"),
                    Rule::AnyNumber,
                ),
            ),
            (CommandId::BreakpointsEnabled, rules2(Rule::EqualStr("bp"), Rule::AnyBool)),
            (CommandId::RegistersPrint, rules1(Rule::EqualStr("reg"))),
            (
                CommandId::RegisterWrite,
                rules4(
                    Rule::EqualStr("reg"),
                    Rule::EqualStr("write"),
                    Rule::AnyNumber,
                    Rule::AnyNumber,
                ),
            ),
            (CommandId::StackSizePrint, rules2(Rule::EqualStr("stack"), Rule::EqualStr("size"))),
            (CommandId::StackPrint, rules1(Rule::EqualStr("stack"))),
            (CommandId::TracePrint, rules1(Rule::EqualStr("trace"))),
            (CommandId::TraceEnabled, rules2(Rule::EqualStr("trace"), Rule::AnyBool)),
            (CommandId::TraceSizePrint, rules2(Rule::EqualStr("trace"), Rule::EqualStr("size"))),
            (
                CommandId::TraceResize,
                rules3(
                    Rule::EqualStr("trace"),
                    Rule::EqualStr("size"),
                    Rule::AnyNumber,
                ),
            ),
            (CommandId::TraceClear, rules2(Rule::EqualStr("trace"), Rule::EqualStr("clear"))),
            (CommandId::CodePointerPrint, rules1(Rule::EqualStr("cp"))),
            (
                CommandId::CodePointerWrite,
                rules3(
                    Rule::EqualStr("cp"),
                    Rule::EqualStr("write"),
                    Rule::AnyNumber,
                ),
            ),
            (CommandId::ConsoleClear, rules1(Rule::EqualStr("clear"))),
            (CommandId::Continue, rules1(Rule::EqualStr("cnt"))),
        ];
        assert(registry_view(r@) =~= rule_table());
        r
    }

    /// The command a line denotes: the first rule of the table that matches
    /// all its whitespace-separated tokens builds it; `Unknown` if none does.
    pub fn parse(&self, command: &String) -> (r: DebuggerCommand)
        requires
            self.wf(),
        ensures
            r == parse_line(command@),
    {
        let tokens = split_tokens(command.as_str());
        let ghost toks = token_seqs(tokens@);
        let ghost table = rule_table();
        assert(table.subrange(0, table.len() as int) =~= table);
        let mut i: usize = 0;
        while i < self.rule_registry.len()
            invariant
                self.wf(),
                table == rule_table(),
                toks == token_seqs(tokens@),
                toks == split_whitespace(command@),
                i <= table.len(),
                first_match(table, toks) == first_match(table.subrange(i as int, table.len() as int), toks),
            decreases self.rule_registry@.len() - i,
        {
            let ghost rest = table.subrange(i as int, table.len() as int);
            assert(rest[0] == table[i as int]);
            assert(rest.drop_first() =~= table.subrange(i + 1, table.len() as int));
            let entry = &self.rule_registry[i];
            assert(table[i as int] == (entry.0, rule_views(entry.1@)));
            if let Some(params) = self.match_all(&entry.1, &tokens) {
                return self.build_command(&entry.0, &params);
            }
            i = i + 1;
        }
        DebuggerCommand::Unknown
    }

    /// Matches every token against its rule; on success, the parameters taken.
    fn match_all(&self, rules: &Vec<Rule>, tokens: &Vec<Vec<char>>) -> (r: Option<Vec<Parameter>>)
        ensures
            match match_rules(rule_views(rules@), token_seqs(tokens@)) {
                Some(params) => r is Some && r->Some_0@ == params,
                None => r is None,
            },
    {
        let ghost rv = rule_views(rules@);
        let ghost tv = token_seqs(tokens@);
        if rules.len() != tokens.len() {
            return None;
        }
        let mut params: Vec<Parameter> = Vec::new();
        let mut pos: usize = 0;
        while pos < tokens.len()
            invariant
                rv == rule_views(rules@),
                tv == token_seqs(tokens@),
                rules@.len() == tokens@.len(),
                pos <= tokens@.len(),
                match_rules(rv.subrange(0, pos as int), tv.subrange(0, pos as int)) == Some(params@),
            decreases tokens@.len() - pos,
        {
            let ghost rp = rv.subrange(0, pos + 1);
            let ghost tp = tv.subrange(0, pos + 1);
            assert(rp.drop_last() =~= rv.subrange(0, pos as int));
            assert(tp.drop_last() =~= tv.subrange(0, pos as int));
            if !self.is_matching(&rules[pos], &tokens[pos], &mut params) {
                proof {
                    lemma_match_prefix_fails(rv, tv, pos + 1);
                }
                return None;
            }
            pos = pos + 1;
        }
        assert(rv.subrange(0, pos as int) =~= rv);
        assert(tv.subrange(0, pos as int) =~= tv);
        Some(params)
    }

    /// Whether a rule matches a token; a number or flag it takes is appended
    /// to `param_list`.
    fn is_matching(
        &self,
        rule: &Rule,
        token: &Vec<char>,
        param_list: &mut Vec<Parameter>,
    ) -> (r: bool)
        ensures
            match match_rule(rule@, token@) {
                None => !r && final(param_list)@ == old(param_list)@,
                Some(None) => r && final(param_list)@ == old(param_list)@,
                Some(Some(p)) => r && final(param_list)@ == old(param_list)@.push(p),
            },
    {
        proof {
            reveal_strlit("true");
            reveal_strlit("false");
            assert("true"@ =~= word_true());
            assert("false"@ =~= word_false());
        }
        match rule {
            Rule::EqualStr(value) => token_is(token, value),
            Rule::AnyBool => {
                if token_is(token, "true") {
                    param_list.push(Parameter::Bool(true));
                    true
                } else if token_is(token, "false") {
                    param_list.push(Parameter::Bool(false));
                    true
                } else {
                    false
                }
            },
            Rule::AnyNumber => {
                match parse_number_token(token) {
                    Some(value) => {
                        param_list.push(Parameter::Usize(value));
                        true
                    },
                    None => false,
                }
            },
        }
    }

    /// The command a rule builds from the parameters it took.
    fn build_command(&self, cmd_id: &CommandId, params: &Vec<Parameter>) -> (r: DebuggerCommand)
        ensures
            r == build(*cmd_id, params@),
    {
        let first = if params.len() > 0 { params[0] } else { Parameter::Bool(false) };
        let second = if params.len() > 1 { params[1] } else { Parameter::Bool(false) };
        match cmd_id {
            CommandId::BreakpointsPrint => DebuggerCommand::BreakpointsPrint,
            CommandId::BreakpointAdd => match first {
                Parameter::Usize(n) => DebuggerCommand::BreakpointAdd(n),
                _ => DebuggerCommand::Unknown,
            },
            CommandId::BreakpointRemove => match first {
                Parameter::Usize(n) => DebuggerCommand::BreakpointRemove(n),
                _ => DebuggerCommand::Unknown,
            },
            CommandId::BreakpointsEnabled => match first {
                Parameter::Bool(b) => DebuggerCommand::BreakpointsEnabled(b),
                _ => DebuggerCommand::Unknown,
            },
            CommandId::RegistersPrint => DebuggerCommand::RegistersPrint,
            CommandId::RegisterWrite => match (first, second) {
                (Parameter::Usize(idx), Parameter::Usize(value)) => DebuggerCommand::RegisterWrite(
                    idx,
                    value as u16,
                ),
                _ => DebuggerCommand::Unknown,
            },
            CommandId::StackSizePrint => DebuggerCommand::StackSizePrint,
            CommandId::StackPrint => DebuggerCommand::StackPrint,
            CommandId::TracePrint => DebuggerCommand::TracePrint,
            CommandId::TraceEnabled => match first {
                Parameter::Bool(b) => DebuggerCommand::TraceEnabled(b),
                _ => DebuggerCommand::Unknown,
            },
            CommandId::TraceSizePrint => DebuggerCommand::TraceSizePrint,
            CommandId::TraceResize => match first {
                Parameter::Usize(n) => DebuggerCommand::TraceResize(n),
                _ => DebuggerCommand::Unknown,
            },
            CommandId::TraceClear => DebuggerCommand::TraceClear,
            CommandId::CodePointerPrint => DebuggerCommand::CodePointerPrint,
            CommandId::CodePointerWrite => match first {
                Parameter::Usize(n) => DebuggerCommand::CodePointerWrite(n),
                _ => DebuggerCommand::Unknown,
            },
            CommandId::ConsoleClear => DebuggerCommand::ConsoleClear,
            CommandId::Continue => DebuggerCommand::Continue,
        }
    }
}

} // verus!
