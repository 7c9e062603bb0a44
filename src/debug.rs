use vstd::prelude::*;
use vstd::string::StringExecFns;

use crate::text::{
    bracketed, bracketed_string, decimal, decimal_string, join, join_strings, pad_left,
    pad_left_string, pad_right, pad_right_string,
};

verus! {

/// One piece of a trace record.
#[derive(Debug)]
pub enum DebugToken {
    /// The address of the instruction.
    Address(usize),
    /// The opcode.
    Operation(u16),
    /// An operand's value, with the register it was read from, if any.
    Value(u16, Option<usize>),
    /// A destination register.
    RegisterIdx(usize),
    /// A note on the instruction's effect.
    Comment(String),
}

/// A trace token with its text as a character sequence.
pub enum TokenView {
    Address(usize),
    Operation(u16),
    Value(u16, Option<usize>),
    RegisterIdx(usize),
    Comment(Seq<char>),
}

impl View for DebugToken {
    type V = TokenView;

    open spec fn view(&self) -> TokenView {
        match self {
            DebugToken::Address(a) => TokenView::Address(*a),
            DebugToken::Operation(op) => TokenView::Operation(*op),
            DebugToken::Value(v, r) => TokenView::Value(*v, *r),
            DebugToken::RegisterIdx(i) => TokenView::RegisterIdx(*i),
            DebugToken::Comment(text) => TokenView::Comment(text@),
        }
    }
}

pub open spec fn token_views(tokens: Seq<DebugToken>) -> Seq<TokenView> {
    tokens.map_values(|t: DebugToken| t@)
}

impl DebugToken {
    pub fn is_comment(&self) -> (r: bool)
        ensures
            r == (self@ is Comment),
    {
        match self {
            DebugToken::Comment(_) => true,
            _ => false,
        }
    }
}

/// The mnemonic of an opcode; `???` for a number that is no opcode.
pub open spec fn mnemonic(op: u16) -> Seq<char> {
    if op == 0 {
        seq!['h', 'a', 'l', 't']
    } else if op == 1 {
        seq!['s', 'e', 't']
    } else if op == 2 {
        seq!['p', 'u', 's', 'h']
    } else if op == 3 {
        seq!['p', 'o', 'p']
    } else if op == 4 {
        seq!['e', 'q']
    } else if op == 5 {
        seq!['g', 't']
    } else if op == 6 {
        seq!['j', 'm', 'p']
    } else if op == 7 {
        seq!['j', 't']
    } else if op == 8 {
        seq!['j', 'f']
    } else if op == 9 {
        seq!['a', 'd', 'd']
    } else if op == 10 {
        seq!['m', 'u', 'l', 't']
    } else if op == 11 {
        seq!['m', 'o', 'd']
    } else if op == 12 {
        seq!['a', 'n', 'd']
    } else if op == 13 {
        seq!['o', 'r']
    } else if op == 14 {
        seq!['n', 'o', 't']
    } else if op == 15 {
        seq!['r', 'm', 'e', 'm']
    } else if op == 16 {
        seq!['w', 'm', 'e', 'm']
    } else if op == 17 {
        seq!['c', 'a', 'l', 'l']
    } else if op == 18 {
        seq!['r', 'e', 't']
    } else if op == 19 {
        seq!['o', 'u', 't']
    } else if op == 20 {
        seq!['i', 'n']
    } else if op == 21 {
        seq!['n', 'o', 'o', 'p']
    } else {
        seq!['?', '?', '?']
    }
}

/// Width of the right-aligned mnemonic column.
pub const OPERATION_WIDTH: usize = 7;

/// The text of one non-comment token.
pub open spec fn token_text(t: TokenView, value_width: int) -> Seq<char> {
    match t {
        TokenView::Address(a) => pad_right(decimal(a as nat), value_width),
        TokenView::Operation(op) => pad_left(mnemonic(op), OPERATION_WIDTH as int),
        TokenView::Value(v, reg) => pad_right(
            match reg {
                Some(r) => bracketed(decimal(r as nat)) + decimal(v as nat),
                None => decimal(v as nat),
            },
            value_width,
        ),
        TokenView::RegisterIdx(i) => bracketed(decimal(i as nat)),
        TokenView::Comment(_) => Seq::empty(),
    }
}

/// The texts of the non-comment tokens, in order.
pub open spec fn instruction_parts(tokens: Seq<TokenView>, value_width: int) -> Seq<Seq<char>>
    decreases tokens.len(),
{
    if tokens.len() == 0 {
        Seq::empty()
    } else {
        let rest = instruction_parts(tokens.drop_last(), value_width);
        if tokens.last() is Comment {
            rest
        } else {
            rest.push(token_text(tokens.last(), value_width))
        }
    }
}

/// The texts of the comment tokens, in order.
pub open spec fn comment_parts(tokens: Seq<TokenView>) -> Seq<Seq<char>>
    decreases tokens.len(),
{
    if tokens.len() == 0 {
        Seq::empty()
    } else {
        let rest = comment_parts(tokens.drop_last());
        match tokens.last() {
            TokenView::Comment(text) => rest.push(text),
            _ => rest,
        }
    }
}

/// `; ` and the comments separated by `, `; nothing when there are none.
pub open spec fn comments_text(tokens: Seq<TokenView>) -> Seq<char> {
    let parts = comment_parts(tokens);
    if parts.len() > 0 {
        seq![';', ' '] + join(parts, seq![',', ' '])
    } else {
        Seq::empty()
    }
}

/// One trace line: the instruction column padded to `instr_width`, a space,
/// then the comments.
pub open spec fn format_line(tokens: Seq<TokenView>, instr_width: int, value_width: int) -> Seq<
    char,
> {
    pad_right(join(instruction_parts(tokens, value_width), seq![' ']), instr_width) + seq![' ']
        + comments_text(tokens)
}

/// Renders trace records as text lines.
pub struct TraceFormatter {
    instr_width: usize,
    value_width: usize,
}

impl TraceFormatter {
    pub closed spec fn spec_instr_width(&self) -> int {
        self.instr_width as int
    }

    pub closed spec fn spec_value_width(&self) -> int {
        self.value_width as int
    }

    /// The line a record becomes under this formatter.
    pub open spec fn line(&self, tokens: Seq<DebugToken>) -> Seq<char> {
        format_line(token_views(tokens), self.spec_instr_width(), self.spec_value_width())
    }

    pub fn new() -> (r: Self)
        ensures
            r.spec_instr_width() == 50,
            r.spec_value_width() == 9,
    {
        Self { instr_width: 50, value_width: 9 }
    }

    /// The text line for one trace record.
    pub fn format(&self, tokens: &Vec<DebugToken>) -> (r: String)
        ensures
            r@ == self.line(tokens@),
    {
        proof {
            reveal_strlit(" ");
        }
        let fmt_instr = self.format_instructions(tokens);
        let fmt_comments = self.format_comments(tokens);
        let mut line = pad_right_string(fmt_instr, self.instr_width);
        line.append(" ");
        line.append(fmt_comments.as_str());
        line
    }

    fn format_instructions(&self, tokens: &Vec<DebugToken>) -> (r: String)
        ensures
            r@ == join(
                instruction_parts(token_views(tokens@), self.spec_value_width()),
                seq![' '],
            ),
    {
        let ghost views = token_views(tokens@);
        let ghost vw = self.spec_value_width();
        let mut parts: Vec<String> = Vec::new();
        let mut i: usize = 0;
        while i < tokens.len()
            invariant
                i <= tokens@.len(),
                views == token_views(tokens@),
                vw == self.spec_value_width(),
                parts@.map_values(|p: String| p@) == instruction_parts(
                    views.subrange(0, i as int),
                    vw,
                ),
            decreases tokens@.len() - i,
        {
            let ghost next = views.subrange(0, i + 1);
            assert(next.drop_last() =~= views.subrange(0, i as int));
            assert(next.last() == tokens@[i as int]@);
            let token = &tokens[i];
            if !token.is_comment() {
                let text = match token {
                    DebugToken::Address(address) => self.format_address(*address),
                    DebugToken::Operation(op_code) => self.format_operation(*op_code),
                    DebugToken::Value(value, reg_idx) => self.format_value(*value, *reg_idx),
                    DebugToken::RegisterIdx(idx) => self.format_register_idx(*idx),
                    DebugToken::Comment(_) => String::new(),
                };
                let ghost before = parts@;
                parts.push(text);
                assert(parts@.map_values(|p: String| p@) =~= before.map_values(|p: String| p@).push(
                    text@,
                ));
            }
            i = i + 1;
        }
        assert(views.subrange(0, i as int) =~= views);
        proof {
            reveal_strlit(" ");
            assert(" "@ =~= seq![' ']);
        }
        join_strings(&parts, " ")
    }

    fn format_address(&self, address: usize) -> (r: String)
        ensures
            r@ == token_text(TokenView::Address(address), self.spec_value_width()),
    {
        pad_right_string(decimal_string(address), self.value_width)
    }

    fn format_operation(&self, op_code: u16) -> (r: String)
        ensures
            r@ == token_text(TokenView::Operation(op_code), self.spec_value_width()),
    {
        pad_left_string(mnemonic_str(op_code), OPERATION_WIDTH)
    }

    fn format_value(&self, value: u16, reg_idx_opt: Option<usize>) -> (r: String)
        ensures
            r@ == token_text(TokenView::Value(value, reg_idx_opt), self.spec_value_width()),
    {
        let mut text = match reg_idx_opt {
            Some(reg_idx) => self.format_register_idx(reg_idx),
            None => String::new(),
        };
        let digits = decimal_string(value as usize);
        text.append(digits.as_str());
        pad_right_string(text, self.value_width)
    }

    fn format_register_idx(&self, idx: usize) -> (r: String)
        ensures
            r@ == bracketed(decimal(idx as nat)),
    {
        let digits = decimal_string(idx);
        bracketed_string(digits.as_str())
    }

    fn format_comments(&self, tokens: &Vec<DebugToken>) -> (r: String)
        ensures
            r@ == comments_text(token_views(tokens@)),
    {
        let ghost views = token_views(tokens@);
        let mut texts: Vec<String> = Vec::new();
        let mut i: usize = 0;
        while i < tokens.len()
            invariant
                i <= tokens@.len(),
                views == token_views(tokens@),
                texts@.map_values(|p: String| p@) == comment_parts(views.subrange(0, i as int)),
            decreases tokens@.len() - i,
        {
            let ghost next = views.subrange(0, i + 1);
            assert(next.drop_last() =~= views.subrange(0, i as int));
            assert(next.last() == tokens@[i as int]@);
            if let DebugToken::Comment(text) = &tokens[i] {
                let ghost before = texts@;
                texts.push(text.clone());
                assert(texts@.map_values(|p: String| p@) =~= before.map_values(|p: String| p@).push(
                    text@,
                ));
            }
            i = i + 1;
        }
        assert(views.subrange(0, i as int) =~= views);
        if texts.len() > 0 {
            proof {
                reveal_strlit("; ");
                reveal_strlit(", ");
                assert("; "@ =~= seq![';', ' ']);
                assert(", "@ =~= seq![',', ' ']);
            }
            let mut r = String::from_str("; ");
            let joined = join_strings(&texts, ", ");
            r.append(joined.as_str());
            assert(r@ =~= comments_text(views));
            r
        } else {
            String::new()
        }
    }
}

/// The mnemonic of an opcode, as a string.
pub fn mnemonic_str(op: u16) -> (r: &'static str)
    ensures
        r@ == mnemonic(op),
{
    proof {
        reveal_strlit("halt");
        reveal_strlit("set");
        reveal_strlit("push");
        reveal_strlit("pop");
        reveal_strlit("eq");
        reveal_strlit("gt");
        reveal_strlit("jmp");
        reveal_strlit("jt");
        reveal_strlit("jf");
        reveal_strlit("add");
        reveal_strlit("mult");
        reveal_strlit("mod");
        reveal_strlit("and");
        reveal_strlit("or");
        reveal_strlit("not");
        reveal_strlit("rmem");
        reveal_strlit("wmem");
        reveal_strlit("call");
        reveal_strlit("ret");
        reveal_strlit("out");
        reveal_strlit("in");
        reveal_strlit("noop");
        reveal_strlit("???");
    }
    let r = match op {
        0 => "halt",
        1 => "set",
        2 => "push",
        3 => "pop",
        4 => "eq",
        5 => "gt",
        6 => "jmp",
        7 => "jt",
        8 => "jf",
        9 => "add",
        10 => "mult",
        11 => "mod",
        12 => "and",
        13 => "or",
        14 => "not",
        15 => "rmem",
        16 => "wmem",
        17 => "call",
        18 => "ret",
        19 => "out",
        20 => "in",
        21 => "noop",
        _ => "???",
    };
    assert(r@ =~= mnemonic(op));
    r
}

} // verus!
