//! The two-pass assembler: from textual assembly to a resolved,
//! label-free instruction sequence.
//!
//! A statement is either a label declaration `@name` or an operation
//! `MNEMONIC operand{,operand};` with up to three operands, each an
//! integer literal, a register `$name`, or a label `@name`.  Pass one
//! tokenizes and parses the statements, recording each label against
//! the index the next emitted operation will occupy.  Pass two resolves
//! register names through the fixed name table and label references
//! through the completed label table, so resolution never depends on
//! where a label was declared.
//!
//! Every function here is specified against a spec-level assembler
//! over byte sequences; `spec_assemble` composes the phases.

use vstd::prelude::*;

use crate::types::RocCPUInstruction;
use crate::types::RocCPURegister;

verus! {

/// Why a piece of assembly text was rejected.  Every error abandons
/// the whole translation; no instruction sequence is produced.
#[derive(Clone, Copy, Debug, PartialEq, Eq, Structural)]
pub enum AsmError {
    /// A byte that belongs to no token.
    UnexpectedCharacter,
    /// A statement does not fit the grammar.
    SyntaxError,
    /// An integer literal outside 0..=255.
    ImmediateOutOfRange,
    /// A mnemonic the instruction set table does not know.
    UnknownMnemonic,
    /// A known mnemonic invoked with an operand count the table does
    /// not declare for it.
    ArityMismatch,
    /// A register name outside the fixed name table.
    UnknownRegister,
    /// A label reference with no matching declaration.
    UndefinedLabel,
    /// A label reference outside the sole-operand position of a
    /// control-transfer mnemonic.
    MisplacedLabel,
    /// An operand of the wrong kind for its slot.
    InvalidOperand,
    /// Two declarations of the same label name.
    DuplicateLabel,
}

/// One lexical token of the assembly grammar.
#[derive(Clone, Debug, PartialEq, Eq)]
pub enum Token {
    Ident(Vec<u8>),
    Number(u8),
    Dollar,
    At,
    Comma,
    Semicolon,
}

/// The abstract value of a [`Token`].
pub enum TokenV {
    Ident(Seq<u8>),
    Number(u8),
    Dollar,
    At,
    Comma,
    Semicolon,
}

impl View for Token {
    type V = TokenV;

    open spec fn view(&self) -> TokenV {
        match self {
            Token::Ident(name) => TokenV::Ident(name@),
            Token::Number(n) => TokenV::Number(*n),
            Token::Dollar => TokenV::Dollar,
            Token::At => TokenV::At,
            Token::Comma => TokenV::Comma,
            Token::Semicolon => TokenV::Semicolon,
        }
    }
}

pub open spec fn toks_view(ts: Seq<Token>) -> Seq<TokenV> {
    ts.map_values(|t: Token| t@)
}

pub open spec fn spec_is_space(c: u8) -> bool {
    c == 32 || c == 9 || c == 13 || c == 10
}

pub open spec fn spec_is_digit(c: u8) -> bool {
    48 <= c <= 57
}

pub open spec fn spec_is_hex_digit(c: u8) -> bool {
    spec_is_digit(c) || (97 <= c <= 102) || (65 <= c <= 70)
}

/// The numeric value of a hexadecimal digit byte.
pub open spec fn spec_hex_digit_value(c: u8) -> int {
    if spec_is_digit(c) {
        c - 48
    } else if 97 <= c <= 102 {
        c - 87
    } else {
        c - 55
    }
}

pub open spec fn spec_is_ident_start(c: u8) -> bool {
    (97 <= c <= 122) || (65 <= c <= 90) || c == 95
}

pub open spec fn spec_is_ident_char(c: u8) -> bool {
    spec_is_ident_start(c) || spec_is_digit(c)
}

fn is_space(c: u8) -> (r: bool)
    ensures
        r == spec_is_space(c),
{
    c == 32 || c == 9 || c == 13 || c == 10
}

fn is_digit(c: u8) -> (r: bool)
    ensures
        r == spec_is_digit(c),
{
    48 <= c && c <= 57
}

fn is_hex_digit(c: u8) -> (r: bool)
    ensures
        r == spec_is_hex_digit(c),
{
    is_digit(c) || (97 <= c && c <= 102) || (65 <= c && c <= 70)
}

fn hex_digit_value(c: u8) -> (v: u8)
    requires
        spec_is_hex_digit(c),
    ensures
        v == spec_hex_digit_value(c),
        v < 16,
{
    if is_digit(c) {
        c - 48
    } else if 97 <= c && c <= 102 {
        c - 87
    } else {
        c - 55
    }
}

fn is_ident_start(c: u8) -> (r: bool)
    ensures
        r == spec_is_ident_start(c),
{
    (97 <= c && c <= 122) || (65 <= c && c <= 90) || c == 95
}

fn is_ident_char(c: u8) -> (r: bool)
    ensures
        r == spec_is_ident_char(c),
{
    is_ident_start(c) || is_digit(c)
}

/// Length of the identifier starting at `i`.
pub open spec fn spec_ident_len(s: Seq<u8>, i: int) -> nat
    decreases s.len() - i,
{
    if i < 0 || i >= s.len() || !spec_is_ident_char(s[i]) {
        0
    } else {
        1 + spec_ident_len(s, i + 1)
    }
}

/// Bytes a line comment occupies from `i`, its closing newline included.
pub open spec fn spec_comment_len(s: Seq<u8>, i: int) -> nat
    decreases s.len() - i,
{
    if i < 0 || i >= s.len() {
        0
    } else if s[i] == 10 {
        1
    } else {
        1 + spec_comment_len(s, i + 1)
    }
}

/// Read a decimal literal from `i`: how many digit bytes it has and
/// its value, or the out-of-range error as soon as it passes 255.
pub open spec fn spec_scan_dec(s: Seq<u8>, i: int, acc: int) -> Result<(nat, u8), AsmError>
    decreases s.len() - i,
{
    if i < 0 || i >= s.len() || !spec_is_digit(s[i]) {
        Ok((0, acc as u8))
    } else {
        let acc2 = acc * 10 + (s[i] - 48);
        if acc2 > 255 {
            Err(AsmError::ImmediateOutOfRange)
        } else {
            match spec_scan_dec(s, i + 1, acc2) {
                Err(e) => Err(e),
                Ok((n, v)) => Ok(((n + 1) as nat, v)),
            }
        }
    }
}

/// Read a hexadecimal literal from `i`, as [`spec_scan_dec`] does.
pub open spec fn spec_scan_hex(s: Seq<u8>, i: int, acc: int) -> Result<(nat, u8), AsmError>
    decreases s.len() - i,
{
    if i < 0 || i >= s.len() || !spec_is_hex_digit(s[i]) {
        Ok((0, acc as u8))
    } else {
        let acc2 = acc * 16 + spec_hex_digit_value(s[i]);
        if acc2 > 255 {
            Err(AsmError::ImmediateOutOfRange)
        } else {
            match spec_scan_hex(s, i + 1, acc2) {
                Err(e) => Err(e),
                Ok((n, v)) => Ok(((n + 1) as nat, v)),
            }
        }
    }
}

proof fn lemma_ident_len_bound(s: Seq<u8>, i: int)
    requires
        0 <= i <= s.len(),
    ensures
        spec_ident_len(s, i) <= s.len() - i,
    decreases s.len() - i,
{
    if i < s.len() && spec_is_ident_char(s[i]) {
        lemma_ident_len_bound(s, i + 1);
    }
}

proof fn lemma_scan_dec_bound(s: Seq<u8>, i: int, acc: int)
    requires
        0 <= i <= s.len(),
    ensures
        (match spec_scan_dec(s, i, acc) {
            Ok(p) => i + p.0 <= s.len(),
            Err(_) => true,
        }),
    decreases s.len() - i,
{
    if i < s.len() && spec_is_digit(s[i]) {
        let acc2 = acc * 10 + (s[i] - 48);
        if acc2 <= 255 {
            lemma_scan_dec_bound(s, i + 1, acc2);
        }
    }
}

proof fn lemma_scan_hex_bound(s: Seq<u8>, i: int, acc: int)
    requires
        0 <= i <= s.len(),
    ensures
        (match spec_scan_hex(s, i, acc) {
            Ok(p) => i + p.0 <= s.len(),
            Err(_) => true,
        }),
    decreases s.len() - i,
{
    if i < s.len() && spec_is_hex_digit(s[i]) {
        let acc2 = acc * 16 + spec_hex_digit_value(s[i]);
        if acc2 <= 255 {
            lemma_scan_hex_bound(s, i + 1, acc2);
        }
    }
}

/// The token sequence of the source from position `i` on.
pub open spec fn spec_tokenize_from(s: Seq<u8>, i: int) -> Result<Seq<TokenV>, AsmError>
    decreases s.len() - i, 0nat,
    via spec_tokenize_from_decreases
{
    if i < 0 || i >= s.len() {
        Ok(Seq::empty())
    } else {
        let c = s[i];
        if spec_is_space(c) {
            spec_tokenize_from(s, i + 1)
        } else if c == 47 && i + 1 < s.len() && s[i + 1] == 47 {
            // A `//` comment runs to the end of its line.
            let j = i + 2 + spec_comment_len(s, i + 2);
            let j2 = if j <= s.len() {
                j
            } else {
                s.len() as int
            };
            spec_tokenize_from(s, j2)
        } else if c == 36 {
            spec_tokenize_cons(s, i + 1, TokenV::Dollar)
        } else if c == 64 {
            spec_tokenize_cons(s, i + 1, TokenV::At)
        } else if c == 44 {
            spec_tokenize_cons(s, i + 1, TokenV::Comma)
        } else if c == 59 {
            spec_tokenize_cons(s, i + 1, TokenV::Semicolon)
        } else if spec_is_ident_start(c) {
            let n = spec_ident_len(s, i);
            spec_tokenize_cons(s, i + n, TokenV::Ident(s.subrange(i, i + n)))
        } else if spec_is_digit(c) {
            if c == 48 && i + 1 < s.len() && (s[i + 1] == 120 || s[i + 1] == 88) {
                // `0x` or `0X` prefix.
                match spec_scan_hex(s, i + 2, 0) {
                    Err(e) => Err(e),
                    Ok((n, v)) => {
                        if n == 0 {
                            Err(AsmError::SyntaxError)
                        } else {
                            spec_tokenize_cons(s, i + 2 + n, TokenV::Number(v))
                        }
                    },
                }
            } else {
                match spec_scan_dec(s, i, 0) {
                    Err(e) => Err(e),
                    Ok((n, v)) => spec_tokenize_cons(s, i + n, TokenV::Number(v)),
                }
            }
        } else {
            Err(AsmError::UnexpectedCharacter)
        }
    }
}

#[via_fn]
proof fn spec_tokenize_from_decreases(s: Seq<u8>, i: int) {
    if 0 <= i < s.len() {
        let c = s[i];
        if spec_is_ident_start(c) {
            assert(spec_ident_len(s, i) == 1 + spec_ident_len(s, i + 1));
            lemma_ident_len_bound(s, i);
        }
        if spec_is_digit(c) {
            lemma_scan_dec_bound(s, i, 0);
            match spec_scan_dec(s, i, 0) {
                Ok(p) => {
                    assert(p.0 >= 1);
                },
                Err(_) => {},
            }
            if i + 2 <= s.len() {
                lemma_scan_hex_bound(s, i + 2, 0);
            }
        }
    }
}

/// Helper for [`spec_tokenize_from`]: emit `tok`, then continue at `i`.
pub open spec fn spec_tokenize_cons(s: Seq<u8>, i: int, tok: TokenV) -> Result<
    Seq<TokenV>,
    AsmError,
>
    decreases s.len() - i, 1nat,
{
    if i <= s.len() {
        match spec_tokenize_from(s, i) {
            Err(e) => Err(e),
            Ok(rest) => Ok(seq![tok] + rest),
        }
    } else {
        Ok(seq![tok])
    }
}

fn scan_ident_len(s: &[u8], i: usize) -> (n: usize)
    requires
        i <= s@.len(),
    ensures
        n == spec_ident_len(s@, i as int),
        i + n <= s@.len(),
    decreases s@.len() - i,
{
    if i >= s.len() {
        return 0;
    }
    if !is_ident_char(s[i]) {
        return 0;
    }
    let rest = scan_ident_len(s, i + 1);
    1 + rest
}

fn scan_comment_len(s: &[u8], i: usize) -> (n: usize)
    requires
        i <= s@.len(),
    ensures
        n == spec_comment_len(s@, i as int),
        i + n <= s@.len(),
    decreases s@.len() - i,
{
    if i >= s.len() {
        return 0;
    }
    if s[i] == 10 {
        return 1;
    }
    let rest = scan_comment_len(s, i + 1);
    1 + rest
}

fn scan_dec(s: &[u8], i: usize, acc: u16) -> (r: Result<(usize, u8), AsmError>)
    requires
        i <= s@.len(),
        acc <= 255,
    ensures
        match spec_scan_dec(s@, i as int, acc as int) {
            Ok(p) => r matches Ok(q) && q.0 == p.0 && q.1 == p.1 && i + q.0 <= s@.len(),
            Err(e) => r == Err::<(usize, u8), AsmError>(e),
        },
    decreases s@.len() - i,
{
    if i >= s.len() || !is_digit(s[i]) {
        return Ok((0, acc as u8));
    }
    let acc2: u16 = acc * 10 + (s[i] - 48) as u16;
    if acc2 > 255 {
        return Err(AsmError::ImmediateOutOfRange);
    }
    match scan_dec(s, i + 1, acc2) {
        Err(e) => Err(e),
        Ok((n, v)) => Ok((n + 1, v)),
    }
}

fn scan_hex(s: &[u8], i: usize, acc: u16) -> (r: Result<(usize, u8), AsmError>)
    requires
        i <= s@.len(),
        acc <= 255,
    ensures
        match spec_scan_hex(s@, i as int, acc as int) {
            Ok(p) => r matches Ok(q) && q.0 == p.0 && q.1 == p.1 && i + q.0 <= s@.len(),
            Err(e) => r == Err::<(usize, u8), AsmError>(e),
        },
    decreases s@.len() - i,
{
    if i >= s.len() || !is_hex_digit(s[i]) {
        return Ok((0, acc as u8));
    }
    let acc2: u16 = acc * 16 + hex_digit_value(s[i]) as u16;
    if acc2 > 255 {
        return Err(AsmError::ImmediateOutOfRange);
    }
    match scan_hex(s, i + 1, acc2) {
        Err(e) => Err(e),
        Ok((n, v)) => Ok((n + 1, v)),
    }
}

fn copy_byte_range(s: &[u8], i: usize, j: usize) -> (r: Vec<u8>)
    requires
        i <= j <= s@.len(),
    ensures
        r@ == s@.subrange(i as int, j as int),
{
    let mut out: Vec<u8> = Vec::new();
    let mut k: usize = i;
    while k < j
        invariant
            i <= k <= j <= s@.len(),
            out@ == s@.subrange(i as int, k as int),
        decreases j - k,
    {
        out.push(s[k]);
        k = k + 1;
        proof {
            assert(out@ =~= s@.subrange(i as int, k as int));
        }
    }
    out
}

fn push_token(out: &mut Vec<Token>, tok: Token)
    ensures
        toks_view(final(out)@) == toks_view(old(out)@).push(tok@),
{
    let ghost tv = tok@;
    out.push(tok);
    proof {
        assert(toks_view(out@) =~= toks_view(old(out)@).push(tv));
    }
}

/// Tokenize the source from position `i`, appending to `out`.
fn tokenize_from(s: &[u8], i: usize, out: &mut Vec<Token>) -> (r: Result<(), AsmError>)
    requires
        i <= s@.len(),
    ensures
        match spec_tokenize_from(s@, i as int) {
            Ok(ts) => r is Ok && toks_view(final(out)@) == toks_view(old(out)@) + ts,
            Err(e) => r == Err::<(), AsmError>(e),
        },
    decreases s@.len() - i, 0nat,
{
    if i >= s.len() {
        proof {
            assert(toks_view(out@) + Seq::<TokenV>::empty() =~= toks_view(out@));
        }
        return Ok(());
    }
    let c = s[i];
    if is_space(c) {
        return tokenize_from(s, i + 1, out);
    }
    if c == 47 && i + 1 < s.len() && s[i + 1] == 47 {
        let n = scan_comment_len(s, i + 2);
        return tokenize_from(s, i + 2 + n, out);
    }
    if c == 36 {
        return tokenize_cons(s, i + 1, Token::Dollar, out);
    }
    if c == 64 {
        return tokenize_cons(s, i + 1, Token::At, out);
    }
    if c == 44 {
        return tokenize_cons(s, i + 1, Token::Comma, out);
    }
    if c == 59 {
        return tokenize_cons(s, i + 1, Token::Semicolon, out);
    }
    if is_ident_start(c) {
        let n = scan_ident_len(s, i);
        let name = copy_byte_range(s, i, i + n);
        return tokenize_cons(s, i + n, Token::Ident(name), out);
    }
    if is_digit(c) {
        if c == 48 && i + 1 < s.len() && (s[i + 1] == 120 || s[i + 1] == 88) {
            match scan_hex(s, i + 2, 0) {
                Err(e) => {
                    return Err(e);
                },
                Ok((n, v)) => {
                    if n == 0 {
                        return Err(AsmError::SyntaxError);
                    }
                    return tokenize_cons(s, i + 2 + n, Token::Number(v), out);
                },
            }
        } else {
            match scan_dec(s, i, 0) {
                Err(e) => {
                    return Err(e);
                },
                Ok((n, v)) => {
                    return tokenize_cons(s, i + n, Token::Number(v), out);
                },
            }
        }
    }
    Err(AsmError::UnexpectedCharacter)
}

/// Emit `tok`, then continue tokenizing at `i`.
fn tokenize_cons(s: &[u8], i: usize, tok: Token, out: &mut Vec<Token>) -> (r: Result<
    (),
    AsmError,
>)
    requires
        i <= s@.len(),
    ensures
        match spec_tokenize_cons(s@, i as int, tok@) {
            Ok(ts) => r is Ok && toks_view(final(out)@) == toks_view(old(out)@) + ts,
            Err(e) => r == Err::<(), AsmError>(e),
        },
    decreases s@.len() - i, 1nat,
{
    let ghost tv = tok@;
    push_token(out, tok);
    match tokenize_from(s, i, out) {
        Err(e) => Err(e),
        Ok(()) => {
            proof {
                let rest = spec_tokenize_from(s@, i as int)->Ok_0;
                assert(toks_view(out@) =~= toks_view(old(out)@) + (seq![tv] + rest));
            }
            Ok(())
        },
    }
}

/// The tokens of a whole source text.
pub fn tokenize(source: &[u8]) -> (r: Result<Vec<Token>, AsmError>)
    ensures
        match spec_tokenize_from(source@, 0) {
            Ok(ts) => r matches Ok(v) && toks_view(v@) == ts,
            Err(e) => r == Err::<Vec<Token>, AsmError>(e),
        },
{
    let mut out: Vec<Token> = Vec::new();
    match tokenize_from(source, 0, &mut out) {
        Ok(()) => {
            proof {
                assert(toks_view(Seq::<Token>::empty()) =~= Seq::<TokenV>::empty());
            }
            Ok(out)
        },
        Err(e) => Err(e),
    }
}

/// One operand as parsed: an immediate byte, a register name not yet
/// resolved, or a label name not yet resolved.
pub enum RocCPULiteral {
    Number(u8),
    Register(Vec<u8>),
    Label(Vec<u8>),
}

/// The abstract value of a [`RocCPULiteral`].
pub enum LiteralV {
    Number(u8),
    Register(Seq<u8>),
    Label(Seq<u8>),
}

impl View for RocCPULiteral {
    type V = LiteralV;

    open spec fn view(&self) -> LiteralV {
        match self {
            RocCPULiteral::Number(n) => LiteralV::Number(*n),
            RocCPULiteral::Register(name) => LiteralV::Register(name@),
            RocCPULiteral::Label(name) => LiteralV::Label(name@),
        }
    }
}

/// One parsed statement: a label declaration or an operation of a
/// fixed operand count.
pub enum Operation {
    LabelOperation { label: RocCPULiteral },
    OperationNoArgs { op_name: Vec<u8> },
    OperationOneArg { op_name: Vec<u8>, value_arg1: RocCPULiteral },
    OperationTwoArg { op_name: Vec<u8>, value_arg1: RocCPULiteral, value_arg2: RocCPULiteral },
    OperationThreeArg {
        op_name: Vec<u8>,
        value_arg1: RocCPULiteral,
        value_arg2: RocCPULiteral,
        value_arg3: RocCPULiteral,
    },
}

/// The abstract value of an [`Operation`].
pub enum OperationV {
    LabelOperation { label: LiteralV },
    OperationNoArgs { op_name: Seq<u8> },
    OperationOneArg { op_name: Seq<u8>, value_arg1: LiteralV },
    OperationTwoArg { op_name: Seq<u8>, value_arg1: LiteralV, value_arg2: LiteralV },
    OperationThreeArg {
        op_name: Seq<u8>,
        value_arg1: LiteralV,
        value_arg2: LiteralV,
        value_arg3: LiteralV,
    },
}

impl View for Operation {
    type V = OperationV;

    open spec fn view(&self) -> OperationV {
        match self {
            Operation::LabelOperation { label } => OperationV::LabelOperation { label: label@ },
            Operation::OperationNoArgs { op_name } => OperationV::OperationNoArgs {
                op_name: op_name@,
            },
            Operation::OperationOneArg { op_name, value_arg1 } => OperationV::OperationOneArg {
                op_name: op_name@,
                value_arg1: value_arg1@,
            },
            Operation::OperationTwoArg { op_name, value_arg1, value_arg2 } => {
                OperationV::OperationTwoArg {
                    op_name: op_name@,
                    value_arg1: value_arg1@,
                    value_arg2: value_arg2@,
                }
            },
            Operation::OperationThreeArg { op_name, value_arg1, value_arg2, value_arg3 } => {
                OperationV::OperationThreeArg {
                    op_name: op_name@,
                    value_arg1: value_arg1@,
                    value_arg2: value_arg2@,
                    value_arg3: value_arg3@,
                }
            },
        }
    }
}

/// One label table entry: a name bound to the index of the operation
/// that textually follows the declaration.
pub struct LabelBinding {
    pub name: Vec<u8>,
    pub index: usize,
}

/// The abstract value of a [`LabelBinding`].
pub struct LabelBindingV {
    pub name: Seq<u8>,
    pub index: nat,
}

impl View for LabelBinding {
    type V = LabelBindingV;

    open spec fn view(&self) -> LabelBindingV {
        LabelBindingV { name: self.name@, index: self.index as nat }
    }
}

pub open spec fn ops_view(s: Seq<Operation>) -> Seq<OperationV> {
    s.map_values(|o: Operation| o@)
}

pub open spec fn labels_view(s: Seq<LabelBinding>) -> Seq<LabelBindingV> {
    s.map_values(|l: LabelBinding| l@)
}

/// The pass-one result: the operations in order, labels filtered out
/// into the label table.
pub struct Program {
    pub operations: Vec<Operation>,
    pub labels: Vec<LabelBinding>,
}

/// Parse one operand at token position `p`; yield it and the position
/// just past it.
pub open spec fn spec_parse_literal(ts: Seq<TokenV>, p: int) -> Result<(LiteralV, int), AsmError> {
    if !(0 <= p < ts.len()) {
        Err(AsmError::SyntaxError)
    } else {
        match ts[p] {
            TokenV::Dollar => {
                if p + 1 < ts.len() {
                    match ts[p + 1] {
                        TokenV::Ident(name) => Ok((LiteralV::Register(name), p + 2)),
                        _ => Err(AsmError::SyntaxError),
                    }
                } else {
                    Err(AsmError::SyntaxError)
                }
            },
            TokenV::At => {
                if p + 1 < ts.len() {
                    match ts[p + 1] {
                        TokenV::Ident(name) => Ok((LiteralV::Label(name), p + 2)),
                        _ => Err(AsmError::SyntaxError),
                    }
                } else {
                    Err(AsmError::SyntaxError)
                }
            },
            TokenV::Number(n) => Ok((LiteralV::Number(n), p + 1)),
            _ => Err(AsmError::SyntaxError),
        }
    }
}

/// Parse one statement at token position `p`: a label declaration
/// `@name` (no terminator), or a mnemonic with 0 to 3 operands closed
/// by `;`.
pub open spec fn spec_parse_statement(ts: Seq<TokenV>, p: int) -> Result<
    (OperationV, int),
    AsmError,
> {
    if !(0 <= p < ts.len()) {
        Err(AsmError::SyntaxError)
    } else {
        match ts[p] {
            TokenV::At => match spec_parse_literal(ts, p) {
                Err(e) => Err(e),
                Ok((label, p2)) => Ok((OperationV::LabelOperation { label }, p2)),
            },
            TokenV::Ident(op_name) => {
                if p + 1 >= ts.len() {
                    Err(AsmError::SyntaxError)
                } else if ts[p + 1] is Semicolon {
                    Ok((OperationV::OperationNoArgs { op_name }, p + 2))
                } else {
                    match spec_parse_literal(ts, p + 1) {
                        Err(e) => Err(e),
                        Ok((value_arg1, p2)) => {
                            if p2 >= ts.len() {
                                Err(AsmError::SyntaxError)
                            } else if ts[p2] is Semicolon {
                                Ok(
                                    (
                                        OperationV::OperationOneArg { op_name, value_arg1 },
                                        p2 + 1,
                                    ),
                                )
                            } else if ts[p2] is Comma {
                                match spec_parse_literal(ts, p2 + 1) {
                                    Err(e) => Err(e),
                                    Ok((value_arg2, p3)) => {
                                        if p3 >= ts.len() {
                                            Err(AsmError::SyntaxError)
                                        } else if ts[p3] is Semicolon {
                                            Ok(
                                                (
                                                    OperationV::OperationTwoArg {
                                                        op_name,
                                                        value_arg1,
                                                        value_arg2,
                                                    },
                                                    p3 + 1,
                                                ),
                                            )
                                        } else if ts[p3] is Comma {
                                            match spec_parse_literal(ts, p3 + 1) {
                                                Err(e) => Err(e),
                                                Ok((value_arg3, p4)) => {
                                                    if p4 < ts.len() && ts[p4] is Semicolon {
                                                        Ok(
                                                            (
                                                                OperationV::OperationThreeArg {
                                                                    op_name,
                                                                    value_arg1,
                                                                    value_arg2,
                                                                    value_arg3,
                                                                },
                                                                p4 + 1,
                                                            ),
                                                        )
                                                    } else {
                                                        Err(AsmError::SyntaxError)
                                                    }
                                                },
                                            }
                                        } else {
                                            Err(AsmError::SyntaxError)
                                        }
                                    },
                                }
                            } else {
                                Err(AsmError::SyntaxError)
                            }
                        },
                    }
                }
            },
            _ => Err(AsmError::SyntaxError),
        }
    }
}

/// Pass one from token position `p`, with `nops` operations already
/// emitted: the remaining operations and label bindings.
pub open spec fn spec_parse_program(ts: Seq<TokenV>, p: int, nops: nat) -> Result<
    (Seq<OperationV>, Seq<LabelBindingV>),
    AsmError,
>
    decreases ts.len() - p,
{
    if p >= ts.len() {
        Ok((Seq::empty(), Seq::empty()))
    } else {
        match spec_parse_statement(ts, p) {
            Err(e) => Err(e),
            Ok((stmt, p2)) => {
                if !(p < p2 <= ts.len()) {
                    Err(AsmError::SyntaxError)
                } else {
                    match stmt {
                        OperationV::LabelOperation { label } => match label {
                            LiteralV::Label(name) => match spec_parse_program(ts, p2, nops) {
                                Err(e) => Err(e),
                                Ok((ops, lbls)) => Ok(
                                    (ops, seq![LabelBindingV { name, index: nops }] + lbls),
                                ),
                            },
                            _ => Err(AsmError::SyntaxError),
                        },
                        other => match spec_parse_program(ts, p2, nops + 1) {
                            Err(e) => Err(e),
                            Ok((ops, lbls)) => Ok((seq![other] + ops, lbls)),
                        },
                    }
                }
            },
        }
    }
}

fn clone_bytes(v: &Vec<u8>) -> (r: Vec<u8>)
    ensures
        r@ == v@,
{
    let r = v.clone();
    proof {
        assert(r@ =~= v@);
    }
    r
}

/// Parse one operand at token position `p`.
fn parse_literal(tokens: &Vec<Token>, p: usize) -> (r: Result<(RocCPULiteral, usize), AsmError>)
    ensures
        match spec_parse_literal(toks_view(tokens@), p as int) {
            Ok(q) => r matches Ok(x) && x.0@ == q.0 && x.1 == q.1 && p < x.1 <= tokens@.len(),
            Err(e) => r == Err::<(RocCPULiteral, usize), AsmError>(e),
        },
{
    if p >= tokens.len() {
        return Err(AsmError::SyntaxError);
    }
    match &tokens[p] {
        Token::Dollar => {
            if p + 1 < tokens.len() {
                match &tokens[p + 1] {
                    Token::Ident(name) => Ok((RocCPULiteral::Register(clone_bytes(name)), p + 2)),
                    _ => Err(AsmError::SyntaxError),
                }
            } else {
                Err(AsmError::SyntaxError)
            }
        },
        Token::At => {
            if p + 1 < tokens.len() {
                match &tokens[p + 1] {
                    Token::Ident(name) => Ok((RocCPULiteral::Label(clone_bytes(name)), p + 2)),
                    _ => Err(AsmError::SyntaxError),
                }
            } else {
                Err(AsmError::SyntaxError)
            }
        },
        Token::Number(n) => Ok((RocCPULiteral::Number(*n), p + 1)),
        _ => Err(AsmError::SyntaxError),
    }
}

/// Parse one statement at token position `p`.
fn parse_statement(tokens: &Vec<Token>, p: usize) -> (r: Result<(Operation, usize), AsmError>)
    ensures
        match spec_parse_statement(toks_view(tokens@), p as int) {
            Ok(q) => r matches Ok(x) && x.0@ == q.0 && x.1 == q.1 && p < x.1 <= tokens@.len(),
            Err(e) => r == Err::<(Operation, usize), AsmError>(e),
        },
{
    if p >= tokens.len() {
        return Err(AsmError::SyntaxError);
    }
    match &tokens[p] {
        Token::At => match parse_literal(tokens, p) {
            Err(e) => Err(e),
            Ok((label, p2)) => Ok((Operation::LabelOperation { label }, p2)),
        },
        Token::Ident(name) => {
            let op_name = clone_bytes(name);
            if p + 1 >= tokens.len() {
                return Err(AsmError::SyntaxError);
            }
            if matches!(&tokens[p + 1], Token::Semicolon) {
                return Ok((Operation::OperationNoArgs { op_name }, p + 2));
            }
            let (value_arg1, p2) = match parse_literal(tokens, p + 1) {
                Err(e) => {
                    return Err(e);
                },
                Ok(x) => x,
            };
            if p2 >= tokens.len() {
                return Err(AsmError::SyntaxError);
            }
            if matches!(&tokens[p2], Token::Semicolon) {
                return Ok((Operation::OperationOneArg { op_name, value_arg1 }, p2 + 1));
            }
            if !matches!(&tokens[p2], Token::Comma) {
                return Err(AsmError::SyntaxError);
            }
            let (value_arg2, p3) = match parse_literal(tokens, p2 + 1) {
                Err(e) => {
                    return Err(e);
                },
                Ok(x) => x,
            };
            if p3 >= tokens.len() {
                return Err(AsmError::SyntaxError);
            }
            if matches!(&tokens[p3], Token::Semicolon) {
                return Ok(
                    (Operation::OperationTwoArg { op_name, value_arg1, value_arg2 }, p3 + 1),
                );
            }
            if !matches!(&tokens[p3], Token::Comma) {
                return Err(AsmError::SyntaxError);
            }
            let (value_arg3, p4) = match parse_literal(tokens, p3 + 1) {
                Err(e) => {
                    return Err(e);
                },
                Ok(x) => x,
            };
            if p4 < tokens.len() && matches!(&tokens[p4], Token::Semicolon) {
                Ok(
                    (
                        Operation::OperationThreeArg {
                            op_name,
                            value_arg1,
                            value_arg2,
                            value_arg3,
                        },
                        p4 + 1,
                    ),
                )
            } else {
                Err(AsmError::SyntaxError)
            }
        },
        _ => Err(AsmError::SyntaxError),
    }
}

/// Pass one from token position `p`, appending operations and label
/// bindings to the accumulators.
fn parse_program_from(
    tokens: &Vec<Token>,
    p: usize,
    nops: usize,
    ops: &mut Vec<Operation>,
    lbls: &mut Vec<LabelBinding>,
) -> (r: Result<(), AsmError>)
    requires
        nops <= p,
    ensures
        match spec_parse_program(toks_view(tokens@), p as int, nops as nat) {
            Ok(q) => r is Ok && ops_view(final(ops)@) == ops_view(old(ops)@) + q.0 && labels_view(
                final(lbls)@,
            ) == labels_view(old(lbls)@) + q.1,
            Err(e) => r == Err::<(), AsmError>(e),
        },
    decreases tokens@.len() - p,
{
    if p >= tokens.len() {
        proof {
            assert(ops_view(ops@) + Seq::<OperationV>::empty() =~= ops_view(ops@));
            assert(labels_view(lbls@) + Seq::<LabelBindingV>::empty() =~= labels_view(lbls@));
        }
        return Ok(());
    }
    let (stmt, p2) = match parse_statement(tokens, p) {
        Err(e) => {
            return Err(e);
        },
        Ok(x) => x,
    };
    match stmt {
        Operation::LabelOperation { label } => match label {
            RocCPULiteral::Label(name) => {
                let ghost lv = LabelBindingV { name: name@, index: nops as nat };
                lbls.push(LabelBinding { name, index: nops });
                proof {
                    assert(labels_view(lbls@) =~= labels_view(old(lbls)@).push(lv));
                }
                match parse_program_from(tokens, p2, nops, ops, lbls) {
                    Err(e) => Err(e),
                    Ok(()) => {
                        proof {
                            let q = spec_parse_program(
                                toks_view(tokens@),
                                p2 as int,
                                nops as nat,
                            )->Ok_0;
                            assert(labels_view(lbls@) =~= labels_view(old(lbls)@) + (seq![lv]
                                + q.1));
                        }
                        Ok(())
                    },
                }
            },
            _ => Err(AsmError::SyntaxError),
        },
        other => {
            let ghost ov = other@;
            ops.push(other);
            proof {
                assert(ops_view(ops@) =~= ops_view(old(ops)@).push(ov));
            }
            match parse_program_from(tokens, p2, nops + 1, ops, lbls) {
                Err(e) => Err(e),
                Ok(()) => {
                    proof {
                        let q = spec_parse_program(
                            toks_view(tokens@),
                            p2 as int,
                            (nops + 1) as nat,
                        )->Ok_0;
                        assert(ops_view(ops@) =~= ops_view(old(ops)@) + (seq![ov] + q.0));
                    }
                    Ok(())
                },
            }
        },
    }
}

impl Program {
    /// Pass one over a whole token sequence: the operations in order
    /// and the completed label table.
    pub fn parse(tokens: &Vec<Token>) -> (r: Result<Program, AsmError>)
        ensures
            match spec_parse_program(toks_view(tokens@), 0, 0) {
                Ok(q) => r matches Ok(prgm) && ops_view(prgm.operations@) == q.0 && labels_view(
                    prgm.labels@,
                ) == q.1,
                Err(e) => r == Err::<Program, AsmError>(e),
            },
    {
        let mut ops: Vec<Operation> = Vec::new();
        let mut lbls: Vec<LabelBinding> = Vec::new();
        match parse_program_from(tokens, 0, 0, &mut ops, &mut lbls) {
            Err(e) => Err(e),
            Ok(()) => {
                proof {
                    assert(ops_view(Seq::<Operation>::empty()) =~= Seq::<OperationV>::empty());
                    assert(labels_view(Seq::<LabelBinding>::empty()) =~= Seq::<
                        LabelBindingV,
                    >::empty());
                }
                Ok(Program { operations: ops, labels: lbls })
            },
        }
    }
}


/// A mnemonic of the instruction set table.
#[derive(Clone, Copy, Debug, PartialEq, Eq, Structural)]
pub enum Mnemonic {
    Add,
    Sub,
    SetRet,
    Put,
    Mov,
    PutMem,
    Push,
    Pop,
    Exit,
    Nop,
    Cmp,
    Jump,
    JumpIfZero,
    Call,
    Return,
    Render,
    Wait,
}

/// The mnemonic table: each upper-case name as its byte sequence.
pub open spec fn spec_mnemonic(name: Seq<u8>) -> Option<Mnemonic> {
    if name == seq![65u8, 68u8, 68u8] {  // ADD
        Some(Mnemonic::Add)
    } else if name == seq![83u8, 85u8, 66u8] {  // SUB
        Some(Mnemonic::Sub)
    } else if name == seq![83u8, 69u8, 84u8, 82u8, 69u8, 84u8] {  // SETRET
        Some(Mnemonic::SetRet)
    } else if name == seq![80u8, 85u8, 84u8] {  // PUT
        Some(Mnemonic::Put)
    } else if name == seq![77u8, 79u8, 86u8] {  // MOV
        Some(Mnemonic::Mov)
    } else if name == seq![80u8, 85u8, 84u8, 77u8, 69u8, 77u8] {  // PUTMEM
        Some(Mnemonic::PutMem)
    } else if name == seq![80u8, 85u8, 83u8, 72u8] {  // PUSH
        Some(Mnemonic::Push)
    } else if name == seq![80u8, 79u8, 80u8] {  // POP
        Some(Mnemonic::Pop)
    } else if name == seq![69u8, 88u8, 73u8, 84u8] {  // EXIT
        Some(Mnemonic::Exit)
    } else if name == seq![78u8, 79u8, 80u8] {  // NOP
        Some(Mnemonic::Nop)
    } else if name == seq![67u8, 77u8, 80u8] {  // CMP
        Some(Mnemonic::Cmp)
    } else if name == seq![74u8, 85u8, 77u8, 80u8] {  // JUMP
        Some(Mnemonic::Jump)
    } else if name == seq![74u8, 90u8] {  // JZ
        Some(Mnemonic::JumpIfZero)
    } else if name == seq![67u8, 65u8, 76u8, 76u8] {  // CALL
        Some(Mnemonic::Call)
    } else if name == seq![82u8, 69u8, 84u8, 85u8, 82u8, 78u8] {  // RETURN
        Some(Mnemonic::Return)
    } else if name == seq![82u8, 69u8, 78u8, 68u8, 69u8, 82u8] {  // RENDER
        Some(Mnemonic::Render)
    } else if name == seq![87u8, 65u8, 73u8, 84u8] {  // WAIT
        Some(Mnemonic::Wait)
    } else {
        None
    }
}

/// The register name table: `ax,bx,cx,dx,ret,f1..f4,fret`.
pub open spec fn spec_register_name(name: Seq<u8>) -> Option<RocCPURegister> {
    if name == seq![97u8, 120u8] {  // ax
        Some(RocCPURegister::GeneralPurposeA)
    } else if name == seq![98u8, 120u8] {  // bx
        Some(RocCPURegister::GeneralPurposeB)
    } else if name == seq![99u8, 120u8] {  // cx
        Some(RocCPURegister::GeneralPurposeC)
    } else if name == seq![100u8, 120u8] {  // dx
        Some(RocCPURegister::GeneralPurposeD)
    } else if name == seq![114u8, 101u8, 116u8] {  // ret
        Some(RocCPURegister::ReturnValue)
    } else if name == seq![102u8, 49u8] {  // f1
        Some(RocCPURegister::FunctionParameter1)
    } else if name == seq![102u8, 50u8] {  // f2
        Some(RocCPURegister::FunctionParameter2)
    } else if name == seq![102u8, 51u8] {  // f3
        Some(RocCPURegister::FunctionParameter3)
    } else if name == seq![102u8, 52u8] {  // f4
        Some(RocCPURegister::FunctionParameter4)
    } else if name == seq![102u8, 114u8, 101u8, 116u8] {  // fret
        Some(RocCPURegister::FunctionReturn)
    } else {
        None
    }
}

fn bytes_eq(a: &Vec<u8>, b: &Vec<u8>) -> (r: bool)
    ensures
        r == (a@ == b@),
{
    if a.len() != b.len() {
        proof {
            if a@ == b@ {
                assert(a@.len() == b@.len());
            }
        }
        return false;
    }
    let n = a.len();
    let mut i: usize = 0;
    while i < n
        invariant
            n == a@.len() == b@.len(),
            i <= n,
            forall|k: int| 0 <= k < i ==> a@[k] == b@[k],
        decreases n - i,
    {
        if a[i] != b[i] {
            proof {
                if a@ == b@ {
                    assert(a@[i as int] == b@[i as int]);
                }
            }
            return false;
        }
        i = i + 1;
    }
    proof {
        assert(a@ =~= b@);
    }
    true
}

fn eq2(v: &Vec<u8>, a: u8, b: u8) -> (r: bool)
    ensures
        r == (v@ == seq![a, b]),
{
    if v.len() != 2 {
        proof {
            if v@ == seq![a, b] {
                assert(v@.len() == 2);
            }
        }
        return false;
    }
    let r = v[0] == a && v[1] == b;
    proof {
        if r {
            assert(v@ =~= seq![a, b]);
        } else {
            if v@ == seq![a, b] {
                assert(v@[0] == a && v@[1] == b);
            }
        }
    }
    r
}

fn eq3(v: &Vec<u8>, a: u8, b: u8, c: u8) -> (r: bool)
    ensures
        r == (v@ == seq![a, b, c]),
{
    if v.len() != 3 {
        proof {
            if v@ == seq![a, b, c] {
                assert(v@.len() == 3);
            }
        }
        return false;
    }
    let r = v[0] == a && v[1] == b && v[2] == c;
    proof {
        if r {
            assert(v@ =~= seq![a, b, c]);
        } else {
            if v@ == seq![a, b, c] {
                assert(v@[0] == a && v@[1] == b && v@[2] == c);
            }
        }
    }
    r
}

fn eq4(v: &Vec<u8>, a: u8, b: u8, c: u8, d: u8) -> (r: bool)
    ensures
        r == (v@ == seq![a, b, c, d]),
{
    if v.len() != 4 {
        proof {
            if v@ == seq![a, b, c, d] {
                assert(v@.len() == 4);
            }
        }
        return false;
    }
    let r = v[0] == a && v[1] == b && v[2] == c && v[3] == d;
    proof {
        if r {
            assert(v@ =~= seq![a, b, c, d]);
        } else {
            if v@ == seq![a, b, c, d] {
                assert(v@[0] == a && v@[1] == b && v@[2] == c && v@[3] == d);
            }
        }
    }
    r
}

fn eq6(v: &Vec<u8>, a: u8, b: u8, c: u8, d: u8, e: u8, f: u8) -> (r: bool)
    ensures
        r == (v@ == seq![a, b, c, d, e, f]),
{
    if v.len() != 6 {
        proof {
            if v@ == seq![a, b, c, d, e, f] {
                assert(v@.len() == 6);
            }
        }
        return false;
    }
    let r = v[0] == a && v[1] == b && v[2] == c && v[3] == d && v[4] == e && v[5] == f;
    proof {
        if r {
            assert(v@ =~= seq![a, b, c, d, e, f]);
        } else {
            if v@ == seq![a, b, c, d, e, f] {
                assert(v@[0] == a && v@[1] == b && v@[2] == c && v@[3] == d && v@[4] == e && v@[5]
                    == f);
            }
        }
    }
    r
}

/// Look a mnemonic up in the table.
pub fn mnemonic_of(name: &Vec<u8>) -> (m: Option<Mnemonic>)
    ensures
        m == spec_mnemonic(name@),
{
    if eq3(name, 65, 68, 68) {
        Some(Mnemonic::Add)
    } else if eq3(name, 83, 85, 66) {
        Some(Mnemonic::Sub)
    } else if eq6(name, 83, 69, 84, 82, 69, 84) {
        Some(Mnemonic::SetRet)
    } else if eq3(name, 80, 85, 84) {
        Some(Mnemonic::Put)
    } else if eq3(name, 77, 79, 86) {
        Some(Mnemonic::Mov)
    } else if eq6(name, 80, 85, 84, 77, 69, 77) {
        Some(Mnemonic::PutMem)
    } else if eq4(name, 80, 85, 83, 72) {
        Some(Mnemonic::Push)
    } else if eq3(name, 80, 79, 80) {
        Some(Mnemonic::Pop)
    } else if eq4(name, 69, 88, 73, 84) {
        Some(Mnemonic::Exit)
    } else if eq3(name, 78, 79, 80) {
        Some(Mnemonic::Nop)
    } else if eq3(name, 67, 77, 80) {
        Some(Mnemonic::Cmp)
    } else if eq4(name, 74, 85, 77, 80) {
        Some(Mnemonic::Jump)
    } else if eq2(name, 74, 90) {
        Some(Mnemonic::JumpIfZero)
    } else if eq4(name, 67, 65, 76, 76) {
        Some(Mnemonic::Call)
    } else if eq6(name, 82, 69, 84, 85, 82, 78) {
        Some(Mnemonic::Return)
    } else if eq6(name, 82, 69, 78, 68, 69, 82) {
        Some(Mnemonic::Render)
    } else if eq4(name, 87, 65, 73, 84) {
        Some(Mnemonic::Wait)
    } else {
        None
    }
}

/// Resolve a register name through the fixed name table.
pub fn register_name_of(name: &Vec<u8>) -> (m: Option<RocCPURegister>)
    ensures
        m == spec_register_name(name@),
{
    if eq2(name, 97, 120) {
        Some(RocCPURegister::GeneralPurposeA)
    } else if eq2(name, 98, 120) {
        Some(RocCPURegister::GeneralPurposeB)
    } else if eq2(name, 99, 120) {
        Some(RocCPURegister::GeneralPurposeC)
    } else if eq2(name, 100, 120) {
        Some(RocCPURegister::GeneralPurposeD)
    } else if eq3(name, 114, 101, 116) {
        Some(RocCPURegister::ReturnValue)
    } else if eq2(name, 102, 49) {
        Some(RocCPURegister::FunctionParameter1)
    } else if eq2(name, 102, 50) {
        Some(RocCPURegister::FunctionParameter2)
    } else if eq2(name, 102, 51) {
        Some(RocCPURegister::FunctionParameter3)
    } else if eq2(name, 102, 52) {
        Some(RocCPURegister::FunctionParameter4)
    } else if eq4(name, 102, 114, 101, 116) {
        Some(RocCPURegister::FunctionReturn)
    } else {
        None
    }
}

/// The first binding of `name` in the label table, if any.
pub open spec fn spec_lookup_label(labels: Seq<LabelBindingV>, name: Seq<u8>) -> Option<nat>
    decreases labels.len(),
{
    if labels.len() == 0 {
        None
    } else if labels[0].name == name {
        Some(labels[0].index)
    } else {
        spec_lookup_label(labels.drop_first(), name)
    }
}

fn lookup_label_from(labels: &Vec<LabelBinding>, name: &Vec<u8>, i: usize) -> (r: Option<usize>)
    requires
        i <= labels@.len(),
    ensures
        (match r {
            Some(ix) => spec_lookup_label(labels_view(labels@).skip(i as int), name@) == Some(
                ix as nat,
            ),
            None => spec_lookup_label(labels_view(labels@).skip(i as int), name@) is None,
        }),
    decreases labels@.len() - i,
{
    if i >= labels.len() {
        proof {
            assert(labels_view(labels@).skip(i as int) =~= Seq::<LabelBindingV>::empty());
        }
        return None;
    }
    proof {
        assert(labels_view(labels@).skip(i as int)[0] == labels@[i as int]@);
        assert(labels_view(labels@).skip(i as int).drop_first() =~= labels_view(labels@).skip(
            i as int + 1,
        ));
    }
    if bytes_eq(&labels[i].name, name) {
        Some(labels[i].index)
    } else {
        lookup_label_from(labels, name, i + 1)
    }
}

fn lookup_label(labels: &Vec<LabelBinding>, name: &Vec<u8>) -> (r: Option<usize>)
    ensures
        (match r {
            Some(ix) => spec_lookup_label(labels_view(labels@), name@) == Some(ix as nat),
            None => spec_lookup_label(labels_view(labels@), name@) is None,
        }),
{
    let r = lookup_label_from(labels, name, 0);
    proof {
        assert(labels_view(labels@).skip(0) =~= labels_view(labels@));
    }
    r
}

/// Two bindings of one name in the label table.
pub open spec fn spec_has_duplicate_labels(labels: Seq<LabelBindingV>) -> bool {
    exists|a: int, b: int|
        0 <= a < b < labels.len() && labels[a].name == labels[b].name
}

fn has_duplicate_labels(labels: &Vec<LabelBinding>) -> (r: bool)
    ensures
        r == spec_has_duplicate_labels(labels_view(labels@)),
{
    let n = labels.len();
    let mut i: usize = 0;
    while i < n
        invariant
            n == labels@.len(),
            i <= n,
            forall|a: int, b: int|
                0 <= a < b < n && a < i ==> labels_view(labels@)[a].name != labels_view(
                    labels@,
                )[b].name,
        decreases n - i,
    {
        let mut j: usize = i + 1;
        while j < n
            invariant
                n == labels@.len(),
                i < n,
                i < j <= n,
                forall|a: int, b: int|
                    0 <= a < b < n && a < i ==> labels_view(labels@)[a].name != labels_view(
                        labels@,
                    )[b].name,
                forall|b: int|
                    i < b < j ==> labels_view(labels@)[i as int].name != labels_view(
                        labels@,
                    )[b].name,
            decreases n - j,
        {
            if bytes_eq(&labels[i].name, &labels[j].name) {
                proof {
                    assert(labels_view(labels@)[i as int].name == labels_view(
                        labels@,
                    )[j as int].name);
                }
                return true;
            }
            j = j + 1;
        }
        i = i + 1;
    }
    false
}

/// An operand that must be a register: resolve its name.
pub open spec fn spec_resolve_register(lit: LiteralV) -> Result<RocCPURegister, AsmError> {
    match lit {
        LiteralV::Register(name) => match spec_register_name(name) {
            Some(r) => Ok(r),
            None => Err(AsmError::UnknownRegister),
        },
        LiteralV::Label(_) => Err(AsmError::MisplacedLabel),
        LiteralV::Number(_) => Err(AsmError::InvalidOperand),
    }
}

/// An operand that must be an immediate byte.
pub open spec fn spec_resolve_number(lit: LiteralV) -> Result<u8, AsmError> {
    match lit {
        LiteralV::Number(n) => Ok(n),
        LiteralV::Label(_) => Err(AsmError::MisplacedLabel),
        LiteralV::Register(_) => Err(AsmError::InvalidOperand),
    }
}

/// The sole operand of a control-transfer mnemonic: a label whose
/// instruction index is reinterpreted as a 16-bit address and split
/// into its high and low bytes.
pub open spec fn spec_resolve_target(lit: LiteralV, labels: Seq<LabelBindingV>) -> Result<
    (u8, u8),
    AsmError,
> {
    match lit {
        LiteralV::Label(name) => match spec_lookup_label(labels, name) {
            Some(k) => {
                let loc = k % 0x10000;
                Ok(((loc / 256) as u8, (loc % 256) as u8))
            },
            None => Err(AsmError::UndefinedLabel),
        },
        _ => Err(AsmError::InvalidOperand),
    }
}

fn resolve_register(lit: &RocCPULiteral) -> (r: Result<RocCPURegister, AsmError>)
    ensures
        r == spec_resolve_register(lit@),
{
    match lit {
        RocCPULiteral::Register(name) => match register_name_of(name) {
            Some(reg) => Ok(reg),
            None => Err(AsmError::UnknownRegister),
        },
        RocCPULiteral::Label(_) => Err(AsmError::MisplacedLabel),
        RocCPULiteral::Number(_) => Err(AsmError::InvalidOperand),
    }
}

fn resolve_number(lit: &RocCPULiteral) -> (r: Result<u8, AsmError>)
    ensures
        r == spec_resolve_number(lit@),
{
    match lit {
        RocCPULiteral::Number(n) => Ok(*n),
        RocCPULiteral::Label(_) => Err(AsmError::MisplacedLabel),
        RocCPULiteral::Register(_) => Err(AsmError::InvalidOperand),
    }
}

fn resolve_target(lit: &RocCPULiteral, labels: &Vec<LabelBinding>) -> (r: Result<
    (u8, u8),
    AsmError,
>)
    ensures
        r == spec_resolve_target(lit@, labels_view(labels@)),
{
    match lit {
        RocCPULiteral::Label(name) => match lookup_label(labels, name) {
            Some(k) => {
                let loc = k % 0x10000;
                Ok((((loc / 256) as u8, (loc % 256) as u8)))
            },
            None => Err(AsmError::UndefinedLabel),
        },
        _ => Err(AsmError::InvalidOperand),
    }
}

/// Pass two for one statement: resolve its operands against the name
/// tables and the completed label table.  A label declaration yields
/// no instruction; any table miss or operand-kind mismatch is the
/// stated assembly error.
pub open spec fn spec_translate(op: OperationV, labels: Seq<LabelBindingV>) -> Result<
    Option<RocCPUInstruction>,
    AsmError,
> {
    match op {
        OperationV::LabelOperation { label } => match label {
            LiteralV::Label(_) => Ok(None),
            _ => Err(AsmError::SyntaxError),
        },
        OperationV::OperationNoArgs { op_name } => match spec_mnemonic(op_name) {
            Some(Mnemonic::Exit) => Ok(Some(RocCPUInstruction::Exit)),
            Some(Mnemonic::Nop) => Ok(Some(RocCPUInstruction::Nop)),
            Some(Mnemonic::Render) => Ok(Some(RocCPUInstruction::Render)),
            Some(Mnemonic::Return) => Ok(Some(RocCPUInstruction::Return)),
            Some(_) => Err(AsmError::ArityMismatch),
            None => Err(AsmError::UnknownMnemonic),
        },
        OperationV::OperationOneArg { op_name, value_arg1 } => match spec_mnemonic(op_name) {
            Some(Mnemonic::Call) => match spec_resolve_target(value_arg1, labels) {
                Ok((hi, lo)) => Ok(Some(RocCPUInstruction::Call(hi, lo))),
                Err(e) => Err(e),
            },
            Some(Mnemonic::Jump) => match spec_resolve_target(value_arg1, labels) {
                Ok((hi, lo)) => Ok(Some(RocCPUInstruction::Jump(hi, lo))),
                Err(e) => Err(e),
            },
            Some(Mnemonic::JumpIfZero) => match spec_resolve_target(value_arg1, labels) {
                Ok((hi, lo)) => Ok(Some(RocCPUInstruction::JumpIfZero(hi, lo))),
                Err(e) => Err(e),
            },
            Some(Mnemonic::Push) => match spec_resolve_register(value_arg1) {
                Ok(r) => Ok(Some(RocCPUInstruction::Push(r))),
                Err(e) => Err(e),
            },
            Some(Mnemonic::Pop) => match spec_resolve_register(value_arg1) {
                Ok(r) => Ok(Some(RocCPUInstruction::Pop(r))),
                Err(e) => Err(e),
            },
            Some(Mnemonic::SetRet) => match spec_resolve_number(value_arg1) {
                Ok(n) => Ok(Some(RocCPUInstruction::SetRet(n))),
                Err(e) => Err(e),
            },
            Some(Mnemonic::Wait) => match spec_resolve_number(value_arg1) {
                Ok(n) => Ok(Some(RocCPUInstruction::Wait(n))),
                Err(e) => Err(e),
            },
            Some(_) => Err(AsmError::ArityMismatch),
            None => Err(AsmError::UnknownMnemonic),
        },
        OperationV::OperationTwoArg { op_name, value_arg1, value_arg2 } => {
            match spec_mnemonic(op_name) {
                Some(Mnemonic::Add) => spec_translate_reg_reg(
                    Mnemonic::Add,
                    value_arg1,
                    value_arg2,
                ),
                Some(Mnemonic::Sub) => spec_translate_reg_reg(
                    Mnemonic::Sub,
                    value_arg1,
                    value_arg2,
                ),
                Some(Mnemonic::Mov) => spec_translate_reg_reg(
                    Mnemonic::Mov,
                    value_arg1,
                    value_arg2,
                ),
                Some(Mnemonic::Cmp) => spec_translate_reg_reg(
                    Mnemonic::Cmp,
                    value_arg1,
                    value_arg2,
                ),
                Some(Mnemonic::Put) => match spec_resolve_register(value_arg1) {
                    Err(e) => Err(e),
                    Ok(r) => match spec_resolve_number(value_arg2) {
                        Err(e) => Err(e),
                        Ok(n) => Ok(Some(RocCPUInstruction::Put(r, n))),
                    },
                },
                Some(Mnemonic::Jump) => spec_translate_imm_imm(
                    Mnemonic::Jump,
                    value_arg1,
                    value_arg2,
                ),
                Some(Mnemonic::JumpIfZero) => spec_translate_imm_imm(
                    Mnemonic::JumpIfZero,
                    value_arg1,
                    value_arg2,
                ),
                Some(Mnemonic::Call) => spec_translate_imm_imm(
                    Mnemonic::Call,
                    value_arg1,
                    value_arg2,
                ),
                Some(_) => Err(AsmError::ArityMismatch),
                None => Err(AsmError::UnknownMnemonic),
            }
        },
        OperationV::OperationThreeArg { op_name, value_arg1, value_arg2, value_arg3 } => {
            match spec_mnemonic(op_name) {
                Some(Mnemonic::PutMem) => match spec_resolve_number(value_arg1) {
                    Err(e) => Err(e),
                    Ok(hi) => match spec_resolve_number(value_arg2) {
                        Err(e) => Err(e),
                        Ok(lo) => match spec_resolve_number(value_arg3) {
                            Err(e) => Err(e),
                            Ok(v) => Ok(Some(RocCPUInstruction::PutMem(hi, lo, v))),
                        },
                    },
                },
                Some(_) => Err(AsmError::ArityMismatch),
                None => Err(AsmError::UnknownMnemonic),
            }
        },
    }
}

/// A two-register operation of pass two.
pub open spec fn spec_translate_reg_reg(m: Mnemonic, a1: LiteralV, a2: LiteralV) -> Result<
    Option<RocCPUInstruction>,
    AsmError,
> {
    match spec_resolve_register(a1) {
        Err(e) => Err(e),
        Ok(r1) => match spec_resolve_register(a2) {
            Err(e) => Err(e),
            Ok(r2) => {
                if m == Mnemonic::Add {
                    Ok(Some(RocCPUInstruction::Add(r1, r2)))
                } else if m == Mnemonic::Sub {
                    Ok(Some(RocCPUInstruction::Sub(r1, r2)))
                } else if m == Mnemonic::Mov {
                    Ok(Some(RocCPUInstruction::Mov(r1, r2)))
                } else {
                    Ok(Some(RocCPUInstruction::Cmp(r1, r2)))
                }
            },
        },
    }
}

/// A control-transfer mnemonic in its raw two-byte address form.
pub open spec fn spec_translate_imm_imm(m: Mnemonic, a1: LiteralV, a2: LiteralV) -> Result<
    Option<RocCPUInstruction>,
    AsmError,
> {
    match spec_resolve_number(a1) {
        Err(e) => Err(e),
        Ok(hi) => match spec_resolve_number(a2) {
            Err(e) => Err(e),
            Ok(lo) => {
                if m == Mnemonic::Jump {
                    Ok(Some(RocCPUInstruction::Jump(hi, lo)))
                } else if m == Mnemonic::JumpIfZero {
                    Ok(Some(RocCPUInstruction::JumpIfZero(hi, lo)))
                } else {
                    Ok(Some(RocCPUInstruction::Call(hi, lo)))
                }
            },
        },
    }
}

fn translate_reg_reg(m: Mnemonic, a1: &RocCPULiteral, a2: &RocCPULiteral) -> (r: Result<
    Option<RocCPUInstruction>,
    AsmError,
>)
    ensures
        r == spec_translate_reg_reg(m, a1@, a2@),
{
    let r1 = match resolve_register(a1) {
        Err(e) => {
            return Err(e);
        },
        Ok(x) => x,
    };
    let r2 = match resolve_register(a2) {
        Err(e) => {
            return Err(e);
        },
        Ok(x) => x,
    };
    if m == Mnemonic::Add {
        Ok(Some(RocCPUInstruction::Add(r1, r2)))
    } else if m == Mnemonic::Sub {
        Ok(Some(RocCPUInstruction::Sub(r1, r2)))
    } else if m == Mnemonic::Mov {
        Ok(Some(RocCPUInstruction::Mov(r1, r2)))
    } else {
        Ok(Some(RocCPUInstruction::Cmp(r1, r2)))
    }
}

fn translate_imm_imm(m: Mnemonic, a1: &RocCPULiteral, a2: &RocCPULiteral) -> (r: Result<
    Option<RocCPUInstruction>,
    AsmError,
>)
    ensures
        r == spec_translate_imm_imm(m, a1@, a2@),
{
    let hi = match resolve_number(a1) {
        Err(e) => {
            return Err(e);
        },
        Ok(x) => x,
    };
    let lo = match resolve_number(a2) {
        Err(e) => {
            return Err(e);
        },
        Ok(x) => x,
    };
    if m == Mnemonic::Jump {
        Ok(Some(RocCPUInstruction::Jump(hi, lo)))
    } else if m == Mnemonic::JumpIfZero {
        Ok(Some(RocCPUInstruction::JumpIfZero(hi, lo)))
    } else {
        Ok(Some(RocCPUInstruction::Call(hi, lo)))
    }
}

/// Pass two for one statement.
pub fn translate_asm_to_opcode(operation: &Operation, labels: &Vec<LabelBinding>) -> (r: Result<
    Option<RocCPUInstruction>,
    AsmError,
>)
    ensures
        r == spec_translate(operation@, labels_view(labels@)),
{
    match operation {
        Operation::LabelOperation { label } => match label {
            RocCPULiteral::Label(_) => Ok(None),
            _ => Err(AsmError::SyntaxError),
        },
        Operation::OperationNoArgs { op_name } => match mnemonic_of(op_name) {
            Some(Mnemonic::Exit) => Ok(Some(RocCPUInstruction::Exit)),
            Some(Mnemonic::Nop) => Ok(Some(RocCPUInstruction::Nop)),
            Some(Mnemonic::Render) => Ok(Some(RocCPUInstruction::Render)),
            Some(Mnemonic::Return) => Ok(Some(RocCPUInstruction::Return)),
            Some(_) => Err(AsmError::ArityMismatch),
            None => Err(AsmError::UnknownMnemonic),
        },
        Operation::OperationOneArg { op_name, value_arg1 } => match mnemonic_of(op_name) {
            Some(Mnemonic::Call) => match resolve_target(value_arg1, labels) {
                Ok((hi, lo)) => Ok(Some(RocCPUInstruction::Call(hi, lo))),
                Err(e) => Err(e),
            },
            Some(Mnemonic::Jump) => match resolve_target(value_arg1, labels) {
                Ok((hi, lo)) => Ok(Some(RocCPUInstruction::Jump(hi, lo))),
                Err(e) => Err(e),
            },
            Some(Mnemonic::JumpIfZero) => match resolve_target(value_arg1, labels) {
                Ok((hi, lo)) => Ok(Some(RocCPUInstruction::JumpIfZero(hi, lo))),
                Err(e) => Err(e),
            },
            Some(Mnemonic::Push) => match resolve_register(value_arg1) {
                Ok(r) => Ok(Some(RocCPUInstruction::Push(r))),
                Err(e) => Err(e),
            },
            Some(Mnemonic::Pop) => match resolve_register(value_arg1) {
                Ok(r) => Ok(Some(RocCPUInstruction::Pop(r))),
                Err(e) => Err(e),
            },
            Some(Mnemonic::SetRet) => match resolve_number(value_arg1) {
                Ok(n) => Ok(Some(RocCPUInstruction::SetRet(n))),
                Err(e) => Err(e),
            },
            Some(Mnemonic::Wait) => match resolve_number(value_arg1) {
                Ok(n) => Ok(Some(RocCPUInstruction::Wait(n))),
                Err(e) => Err(e),
            },
            Some(_) => Err(AsmError::ArityMismatch),
            None => Err(AsmError::UnknownMnemonic),
        },
        Operation::OperationTwoArg { op_name, value_arg1, value_arg2 } => {
            match mnemonic_of(op_name) {
                Some(Mnemonic::Add) => translate_reg_reg(Mnemonic::Add, value_arg1, value_arg2),
                Some(Mnemonic::Sub) => translate_reg_reg(Mnemonic::Sub, value_arg1, value_arg2),
                Some(Mnemonic::Mov) => translate_reg_reg(Mnemonic::Mov, value_arg1, value_arg2),
                Some(Mnemonic::Cmp) => translate_reg_reg(Mnemonic::Cmp, value_arg1, value_arg2),
                Some(Mnemonic::Put) => {
                    let r1 = match resolve_register(value_arg1) {
                        Err(e) => {
                            return Err(e);
                        },
                        Ok(x) => x,
                    };
                    match resolve_number(value_arg2) {
                        Err(e) => Err(e),
                        Ok(n) => Ok(Some(RocCPUInstruction::Put(r1, n))),
                    }
                },
                Some(Mnemonic::Jump) => translate_imm_imm(Mnemonic::Jump, value_arg1, value_arg2),
                Some(Mnemonic::JumpIfZero) => translate_imm_imm(
                    Mnemonic::JumpIfZero,
                    value_arg1,
                    value_arg2,
                ),
                Some(Mnemonic::Call) => translate_imm_imm(Mnemonic::Call, value_arg1, value_arg2),
                Some(_) => Err(AsmError::ArityMismatch),
                None => Err(AsmError::UnknownMnemonic),
            }
        },
        Operation::OperationThreeArg { op_name, value_arg1, value_arg2, value_arg3 } => {
            match mnemonic_of(op_name) {
                Some(Mnemonic::PutMem) => {
                    let hi = match resolve_number(value_arg1) {
                        Err(e) => {
                            return Err(e);
                        },
                        Ok(x) => x,
                    };
                    let lo = match resolve_number(value_arg2) {
                        Err(e) => {
                            return Err(e);
                        },
                        Ok(x) => x,
                    };
                    match resolve_number(value_arg3) {
                        Err(e) => Err(e),
                        Ok(v) => Ok(Some(RocCPUInstruction::PutMem(hi, lo, v))),
                    }
                },
                Some(_) => Err(AsmError::ArityMismatch),
                None => Err(AsmError::UnknownMnemonic),
            }
        },
    }
}

/// Pass two over the operation sequence: each statement resolved, the
/// label declarations contributing nothing.
pub open spec fn spec_resolve(ops: Seq<OperationV>, labels: Seq<LabelBindingV>) -> Result<
    Seq<RocCPUInstruction>,
    AsmError,
>
    decreases ops.len(),
{
    if ops.len() == 0 {
        Ok(Seq::empty())
    } else {
        match spec_translate(ops[0], labels) {
            Err(e) => Err(e),
            Ok(None) => spec_resolve(ops.drop_first(), labels),
            Ok(Some(ins)) => match spec_resolve(ops.drop_first(), labels) {
                Err(e) => Err(e),
                Ok(rest) => Ok(seq![ins] + rest),
            },
        }
    }
}

fn translate_all(
    ops: &Vec<Operation>,
    i: usize,
    labels: &Vec<LabelBinding>,
    out: &mut Vec<RocCPUInstruction>,
) -> (r: Result<(), AsmError>)
    requires
        i <= ops@.len(),
    ensures
        match spec_resolve(ops_view(ops@).skip(i as int), labels_view(labels@)) {
            Ok(instrs) => r is Ok && final(out)@ == old(out)@ + instrs,
            Err(e) => r == Err::<(), AsmError>(e),
        },
    decreases ops@.len() - i,
{
    if i >= ops.len() {
        proof {
            assert(ops_view(ops@).skip(i as int) =~= Seq::<OperationV>::empty());
            assert(out@ + Seq::<RocCPUInstruction>::empty() =~= out@);
        }
        return Ok(());
    }
    proof {
        assert(ops_view(ops@).skip(i as int)[0] == ops@[i as int]@);
        assert(ops_view(ops@).skip(i as int).drop_first() =~= ops_view(ops@).skip(i as int + 1));
    }
    match translate_asm_to_opcode(&ops[i], labels) {
        Err(e) => Err(e),
        Ok(None) => translate_all(ops, i + 1, labels, out),
        Ok(Some(ins)) => {
            out.push(ins);
            match translate_all(ops, i + 1, labels, out) {
                Err(e) => Err(e),
                Ok(()) => {
                    proof {
                        let rest = spec_resolve(
                            ops_view(ops@).skip(i as int + 1),
                            labels_view(labels@),
                        )->Ok_0;
                        assert(out@ =~= old(out)@ + (seq![ins] + rest));
                    }
                    Ok(())
                },
            }
        },
    }
}

/// The whole assembler over a source text: tokenize, parse, reject a
/// duplicate label, resolve.
pub open spec fn spec_assemble(source: Seq<u8>) -> Result<Seq<RocCPUInstruction>, AsmError> {
    match spec_tokenize_from(source, 0) {
        Err(e) => Err(e),
        Ok(ts) => match spec_parse_program(ts, 0, 0) {
            Err(e) => Err(e),
            Ok((ops, lbls)) => {
                if spec_has_duplicate_labels(lbls) {
                    Err(AsmError::DuplicateLabel)
                } else {
                    spec_resolve(ops, lbls)
                }
            },
        },
    }
}

/// Assemble a source text into its instruction sequence, or the first
/// assembly error.  No partial sequence is ever produced.
pub fn assemble(source: &[u8]) -> (r: Result<Vec<RocCPUInstruction>, AsmError>)
    ensures
        match spec_assemble(source@) {
            Ok(p) => r matches Ok(v) && v@ == p,
            Err(e) => r == Err::<Vec<RocCPUInstruction>, AsmError>(e),
        },
{
    let tokens = match tokenize(source) {
        Err(e) => {
            proof {
                assert(spec_assemble(source@) == Err::<Seq<RocCPUInstruction>, AsmError>(e));
            }
            return Err(e);
        },
        Ok(ts) => ts,
    };
    let prgm = match Program::parse(&tokens) {
        Err(e) => {
            proof {
                assert(spec_assemble(source@) == Err::<Seq<RocCPUInstruction>, AsmError>(e));
            }
            return Err(e);
        },
        Ok(p) => p,
    };
    if has_duplicate_labels(&prgm.labels) {
        return Err(AsmError::DuplicateLabel);
    }
    let mut out: Vec<RocCPUInstruction> = Vec::new();
    proof {
        assert(ops_view(prgm.operations@).skip(0) =~= ops_view(prgm.operations@));
    }
    match translate_all(&prgm.operations, 0, &prgm.labels, &mut out) {
        Err(e) => Err(e),
        Ok(()) => {
            proof {
                assert(ops_view(prgm.operations@).skip(0) =~= ops_view(prgm.operations@));
                match spec_resolve(ops_view(prgm.operations@), labels_view(prgm.labels@)) {
                    Ok(instrs) => {
                        assert(Seq::<RocCPUInstruction>::empty() + instrs =~= instrs);
                    },
                    Err(_) => {},
                }
            }
            Ok(out)
        },
    }
}

} // verus!
