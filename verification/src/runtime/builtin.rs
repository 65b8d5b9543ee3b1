//! The builtin functions: a fixed, closed set of host functions.  Each
//! declares a formal parameter list and an execution rule.  `len`,
//! `first`, `last`, `pop`, `push` and `format` are pure; `write` and
//! `writeln` write to standard output; `readln` blocks for one line of
//! interactive input.

use crate::common::ast::{params_view, FunctionStatement, FunctionStatementV, Parameter, ParameterV};
use crate::common::error::{Error, ErrorKind, ErrorKindV};
use crate::common::number::{ieee_from_count, number_from_count};
use crate::common::object::{
    clone_object, obj_view, object_text, seq_view, value_text, Object, Value,
};
use crate::common::position::{Position, PositionV};
use crate::common::token::{Token, TokenType, TokenV};
use std::io::Write;
use vstd::prelude::*;

verus! {

/// The closed set of builtin functions.
#[derive(Clone, Copy, Debug, PartialEq, Eq, Structural)]
pub enum Builtin {
    Len,
    First,
    Last,
    Write,
    WriteLn,
    Readln,
    Pop,
    Push,
    Format,
}

/// The name under which each builtin is called.
pub open spec fn builtin_name(b: Builtin) -> Seq<char> {
    match b {
        Builtin::Len => "len"@,
        Builtin::First => "first"@,
        Builtin::Last => "last"@,
        Builtin::Write => "write"@,
        Builtin::WriteLn => "writeln"@,
        Builtin::Readln => "readln"@,
        Builtin::Pop => "pop"@,
        Builtin::Push => "push"@,
        Builtin::Format => "format"@,
    }
}

/// The position attached to builtin declarations.
pub open spec fn builtin_position() -> PositionV {
    PositionV { source_name: "builtin"@, line: 0 }
}

/// One declared parameter of a builtin.
pub open spec fn builtin_param(name: Seq<char>, is_pack: bool) -> ParameterV {
    ParameterV {
        identifier: TokenV {
            ttype: TokenType::Identifier,
            lexeme: name,
            literal: None,
            position: builtin_position(),
        },
        is_pack,
    }
}

/// The declared parameter list of each builtin.
pub open spec fn builtin_params(b: Builtin) -> Seq<ParameterV> {
    match b {
        Builtin::Len => seq![builtin_param("value"@, false)],
        Builtin::First => seq![builtin_param("value"@, false)],
        Builtin::Last => seq![builtin_param("value"@, false)],
        Builtin::Write => seq![builtin_param("value"@, true)],
        Builtin::WriteLn => seq![builtin_param("value"@, true)],
        Builtin::Readln => seq![builtin_param("prompt"@, false)],
        Builtin::Pop => seq![builtin_param("popable"@, false)],
        Builtin::Push => seq![
            builtin_param("pushable"@, false),
            builtin_param("value"@, false),
        ],
        Builtin::Format => seq![
            builtin_param("format"@, false),
            builtin_param("args"@, true),
        ],
    }
}

/// The builtin a name refers to, if any.
pub open spec fn builtin_of_name(n: Seq<char>) -> Option<Builtin> {
    if n == "len"@ {
        Some(Builtin::Len)
    } else if n == "first"@ {
        Some(Builtin::First)
    } else if n == "last"@ {
        Some(Builtin::Last)
    } else if n == "write"@ {
        Some(Builtin::Write)
    } else if n == "writeln"@ {
        Some(Builtin::WriteLn)
    } else if n == "readln"@ {
        Some(Builtin::Readln)
    } else if n == "pop"@ {
        Some(Builtin::Pop)
    } else if n == "push"@ {
        Some(Builtin::Push)
    } else if n == "format"@ {
        Some(Builtin::Format)
    } else {
        None
    }
}

/// The function-table entry that `init` registers for each builtin: its
/// name, its parameters, and no block.
pub open spec fn builtin_function(b: Builtin) -> FunctionStatementV {
    FunctionStatementV {
        identifier: TokenV {
            ttype: TokenType::Identifier,
            lexeme: builtin_name(b),
            literal: None,
            position: builtin_position(),
        },
        parameters: builtin_params(b),
        block: None,
    }
}

/// The function table that a fresh interpreter starts with: exactly
/// the builtin declarations, each registered under its own name in
/// the order `init` produces them.
pub open spec fn builtin_table() -> Map<Seq<char>, FunctionStatementV> {
    Map::empty()
        .insert(builtin_name(Builtin::Len), builtin_function(Builtin::Len))
        .insert(builtin_name(Builtin::First), builtin_function(Builtin::First))
        .insert(builtin_name(Builtin::Last), builtin_function(Builtin::Last))
        .insert(builtin_name(Builtin::Format), builtin_function(Builtin::Format))
        .insert(builtin_name(Builtin::Write), builtin_function(Builtin::Write))
        .insert(builtin_name(Builtin::WriteLn), builtin_function(Builtin::WriteLn))
        .insert(builtin_name(Builtin::Readln), builtin_function(Builtin::Readln))
        .insert(builtin_name(Builtin::Pop), builtin_function(Builtin::Pop))
        .insert(builtin_name(Builtin::Push), builtin_function(Builtin::Push))
}

/// The order in which `init` registers the builtins.
pub open spec fn builtin_at(i: int) -> Builtin {
    if i == 0 {
        Builtin::Len
    } else if i == 1 {
        Builtin::First
    } else if i == 2 {
        Builtin::Last
    } else if i == 3 {
        Builtin::Format
    } else if i == 4 {
        Builtin::Write
    } else if i == 5 {
        Builtin::WriteLn
    } else if i == 6 {
        Builtin::Readln
    } else if i == 7 {
        Builtin::Pop
    } else {
        Builtin::Push
    }
}

// The format engine.

/// The scanning state of the format engine: outside any placeholder;
/// inside `{...}` having read the digits accumulated so far, if any; or
/// just after a lone `}` that must be completed to an escape.
pub enum FmtState {
    Scan,
    Open(Option<nat>),
    Close,
}

/// Prefix the output of a format result.
pub open spec fn compose(prefix: Seq<char>, r: Result<Seq<char>, ErrorKindV>) -> Result<
    Seq<char>,
    ErrorKindV,
> {
    match r {
        Ok(s) => Ok(prefix + s),
        Err(e) => Err(e),
    }
}

/// The format engine from position `i` in state `st`: `{}` consumes the
/// next unused element of `args` (`auto` counts them), `{N}` substitutes
/// `args[N]` without consuming, `{{` and `}}` are literal escapes.  A
/// `}` that closes nothing and is not completed to an escape is an
/// unclosed placeholder, also when the template ends right after it; a
/// trailing unfinished `{...}` placeholder is dropped silently.
pub open spec fn fmt_from(
    t: Seq<char>,
    args: Seq<Value>,
    i: int,
    auto: int,
    st: FmtState,
) -> Result<Seq<char>, ErrorKindV>
    decreases t.len() - i,
{
    if i < 0 || i >= t.len() {
        match st {
            FmtState::Close => Err(ErrorKindV::UnclosedPlaceholder),
            _ => Ok(Seq::empty()),
        }
    } else {
        let c = t[i];
        match st {
            FmtState::Scan => {
                if c == '{' {
                    fmt_from(t, args, i + 1, auto, FmtState::Open(None))
                } else if c == '}' {
                    fmt_from(t, args, i + 1, auto, FmtState::Close)
                } else {
                    compose(seq![c], fmt_from(t, args, i + 1, auto, FmtState::Scan))
                }
            },
            FmtState::Close => {
                if c == '}' {
                    compose(seq!['}'], fmt_from(t, args, i + 1, auto, FmtState::Scan))
                } else {
                    Err(ErrorKindV::UnclosedPlaceholder)
                }
            },
            FmtState::Open(num) => {
                if c == '}' {
                    match num {
                        None => if auto < args.len() {
                            compose(
                                value_text(args[auto]),
                                fmt_from(t, args, i + 1, auto + 1, FmtState::Scan),
                            )
                        } else {
                            Err(ErrorKindV::ArgumentCount)
                        },
                        Some(n) => if n < args.len() {
                            compose(
                                value_text(args[n as int]),
                                fmt_from(t, args, i + 1, auto, FmtState::Scan),
                            )
                        } else {
                            Err(ErrorKindV::ArgumentCount)
                        },
                    }
                } else if c == '{' {
                    compose(seq!['{'], fmt_from(t, args, i + 1, auto, FmtState::Scan))
                } else if 48 <= c as u32 <= 57 {
                    let d = (c as u32 - 48) as nat;
                    let sofar = match num {
                        None => 0,
                        Some(n) => n,
                    };
                    fmt_from(t, args, i + 1, auto, FmtState::Open(Some(10 * sofar + d)))
                } else {
                    Err(ErrorKindV::InvalidPlaceholder(c))
                }
            },
        }
    }
}

/// The result of formatting `t` with `args`.
pub open spec fn fmt_spec(t: Seq<char>, args: Seq<Value>) -> Result<Seq<char>, ErrorKindV> {
    fmt_from(t, args, 0, 0, FmtState::Scan)
}

/// Composition with a prefix is associative.
proof fn lemma_compose_assoc(a: Seq<char>, b: Seq<char>, r: Result<Seq<char>, ErrorKindV>)
    ensures
        compose(a, compose(b, r)) == compose(a + b, r),
{
    match r {
        Ok(s) => {
            assert(a + (b + s) =~= (a + b) + s);
        },
        Err(_) => {},
    }
}

/// Relies on std's `String::push`: appends one character.
#[verifier::external_body]
fn push_char(s: &mut String, c: char)
    ensures
        final(s)@ == old(s)@.push(c),
{
    s.push(c);
}

/// The exec mirror of [`FmtState`]; the accumulated number is carried
/// beside it.
pub enum FmtMode {
    Scan,
    Open,
    Close,
}

/// The spec state that an exec scanning state stands for.
pub open spec fn mode_state(m: FmtMode, has_num: bool, snum: nat) -> FmtState {
    match m {
        FmtMode::Scan => FmtState::Scan,
        FmtMode::Close => FmtState::Close,
        FmtMode::Open => FmtState::Open(
            if has_num {
                Some(snum)
            } else {
                None
            },
        ),
    }
}

/// Format `template` with `items` as the argument array.
#[verifier::loop_isolation(false)]
pub fn format_text(template: &String, items: &Vec<Object>) -> (r: Result<String, ErrorKind>)
    ensures
        match r {
            Ok(s) => fmt_spec(template@, seq_view(items@)) == Ok::<Seq<char>, ErrorKindV>(s@),
            Err(k) => fmt_spec(template@, seq_view(items@)) == Err::<Seq<char>, ErrorKindV>(k@),
        },
{
    let ghost t = template@;
    let ghost argsv = seq_view(items@);
    let n = template.as_str().unicode_len();
    let len = items.len();
    let mut out = String::new();
    let mut i: usize = 0;
    let mut auto: usize = 0;
    let mut mode = FmtMode::Scan;
    let mut has_num = false;
    let mut num: usize = 0;
    let ghost mut snum: nat = 0;
    while i < n
        invariant
            n == t.len(),
            len == argsv.len(),
            len == items@.len(),
            i <= n,
            auto <= len,
            num == if snum >= len {
                len as nat
            } else {
                snum
            },
            fmt_spec(t, argsv) == compose(
                out@,
                fmt_from(t, argsv, i as int, auto as int, mode_state(mode, has_num, snum)),
            ),
        decreases n - i,
    {
        let ghost out0 = out@;
        let ghost st0 = mode_state(mode, has_num, snum);
        let c = template.as_str().get_char(i);
        match mode {
            FmtMode::Scan => {
                if c == '{' {
                    mode = FmtMode::Open;
                    has_num = false;
                    num = 0;
                    proof {
                        snum = 0;
                    }
                } else if c == '}' {
                    mode = FmtMode::Close;
                } else {
                    push_char(&mut out, c);
                    proof {
                        let rest = fmt_from(t, argsv, i + 1, auto as int, FmtState::Scan);
                        lemma_compose_assoc(out0, seq![c], rest);
                        assert(out0 + seq![c] =~= out@);
                    }
                }
            },
            FmtMode::Close => {
                if c == '}' {
                    push_char(&mut out, c);
                    mode = FmtMode::Scan;
                    proof {
                        let rest = fmt_from(t, argsv, i + 1, auto as int, FmtState::Scan);
                        lemma_compose_assoc(out0, seq!['}'], rest);
                        assert(out0 + seq!['}'] =~= out@);
                    }
                } else {
                    return Err(ErrorKind::UnclosedPlaceholder);
                }
            },
            FmtMode::Open => {
                if c == '}' {
                    if !has_num {
                        if auto < len {
                            let s = object_text(&items[auto]);
                            out.append(s.as_str());
                            auto = auto + 1;
                            mode = FmtMode::Scan;
                            proof {
                                let rest = fmt_from(
                                    t,
                                    argsv,
                                    i + 1,
                                    auto as int,
                                    FmtState::Scan,
                                );
                                lemma_compose_assoc(out0, value_text(argsv[auto - 1]), rest);
                            }
                        } else {
                            return Err(ErrorKind::ArgumentCount);
                        }
                    } else {
                        if num < len {
                            proof {
                                assert(snum == num);
                            }
                            let s = object_text(&items[num]);
                            out.append(s.as_str());
                            mode = FmtMode::Scan;
                            has_num = false;
                            proof {
                                let rest = fmt_from(
                                    t,
                                    argsv,
                                    i + 1,
                                    auto as int,
                                    FmtState::Scan,
                                );
                                lemma_compose_assoc(out0, value_text(argsv[num as int]), rest);
                                snum = 0;
                            }
                            num = 0;
                        } else {
                            return Err(ErrorKind::ArgumentCount);
                        }
                    }
                } else if c == '{' {
                    push_char(&mut out, c);
                    mode = FmtMode::Scan;
                    has_num = false;
                    num = 0;
                    proof {
                        let rest = fmt_from(t, argsv, i + 1, auto as int, FmtState::Scan);
                        lemma_compose_assoc(out0, seq!['{'], rest);
                        assert(out0 + seq!['{'] =~= out@);
                        snum = 0;
                    }
                } else if c as u32 >= 48 && c as u32 <= 57 {
                    let d = (c as u32 - 48) as usize;
                    let ghost snum0 = snum;
                    proof {
                        snum = if has_num {
                            10 * snum0 + d as nat
                        } else {
                            d as nat
                        };
                    }
                    if !has_num {
                        has_num = true;
                        if d >= len {
                            num = len;
                        } else {
                            num = d;
                        }
                    } else {
                        if num > len / 10 {
                            proof {
                                if snum0 < len {
                                    assert(num == snum0);
                                    assert(10 * snum0 + d as nat >= len) by (nonlinear_arith)
                                        requires
                                            snum0 > len / 10,
                                            len >= 0,
                                            d >= 0,
                                            len / 10 * 10 + len % 10 == len,
                                            len % 10 < 10,
                                    ;
                                } else {
                                    assert(10 * snum0 + d as nat >= snum0) by (nonlinear_arith)
                                        requires
                                            snum0 >= 0,
                                            d >= 0,
                                    ;
                                }
                            }
                            num = len;
                        } else {
                            proof {
                                assert(num * 10 <= len) by (nonlinear_arith)
                                    requires
                                        num <= len / 10,
                                        num >= 0,
                                        len >= 0,
                                        len / 10 * 10 + len % 10 == len,
                                        len % 10 < 10,
                                ;
                            }
                            let base = num * 10;
                            if d >= len - base {
                                proof {
                                    if snum0 >= len {
                                        assert(len == 0) by (nonlinear_arith)
                                            requires
                                                len <= len / 10,
                                                len >= 0,
                                                len / 10 * 10 + len % 10 == len,
                                                len % 10 < 10,
                                        ;
                                        assert(10 * snum0 + d as nat >= snum0) by (nonlinear_arith)
                                            requires
                                                snum0 >= 0,
                                                d >= 0,
                                        ;
                                    }
                                }
                                num = len;
                            } else {
                                num = base + d;
                            }
                        }
                    }
                } else {
                    return Err(ErrorKind::InvalidPlaceholder(c));
                }
            },
        }
        i = i + 1;
    }
    if let FmtMode::Close = mode {
        return Err(ErrorKind::UnclosedPlaceholder);
    }
    proof {
        assert(fmt_from(t, argsv, n as int, auto as int, mode_state(mode, has_num, snum))
            == Ok::<Seq<char>, ErrorKindV>(Seq::empty()));
        assert(out@ + Seq::<char>::empty() =~= out@);
    }
    Ok(out)
}


/// The pure result of a builtin other than `readln`, for argument
/// values matching its declared arity.  `write` and `writeln` return
/// nil; what they print is their side effect.
pub open spec fn pure_builtin_result(b: Builtin, args: Seq<Value>) -> Result<Value, ErrorKindV>
    recommends
        args.len() == builtin_params(b).len(),
{
    match b {
        Builtin::Len => match args[0] {
            Value::Str(s) => Ok(Value::Number(ieee_from_count(s.len() as usize))),
            Value::Array(a) => Ok(Value::Number(ieee_from_count(a.len() as usize))),
            _ => Err(ErrorKindV::UnsupportedArgument("len"@)),
        },
        Builtin::First => match args[0] {
            Value::Array(a) => if a.len() == 0 {
                Ok(Value::Nil)
            } else {
                Ok(a[0])
            },
            _ => Err(ErrorKindV::UnsupportedArgument("first"@)),
        },
        Builtin::Last => match args[0] {
            Value::Array(a) => if a.len() == 0 {
                Ok(Value::Nil)
            } else {
                Ok(a.last())
            },
            _ => Err(ErrorKindV::UnsupportedArgument("last"@)),
        },
        Builtin::Pop => match args[0] {
            Value::Array(a) => if a.len() == 0 {
                Ok(Value::Nil)
            } else {
                Ok(a.last())
            },
            _ => Err(ErrorKindV::UnsupportedArgument("pop"@)),
        },
        Builtin::Push => match args[0] {
            Value::Array(a) => Ok(Value::Array(a.push(args[1]))),
            _ => Err(ErrorKindV::UnsupportedArgument("push"@)),
        },
        Builtin::Write => Ok(Value::Nil),
        Builtin::WriteLn => Ok(Value::Nil),
        Builtin::Format => match args[1] {
            Value::Array(items) => match fmt_spec(value_text(args[0]), items) {
                Ok(s) => Ok(Value::Str(s)),
                Err(k) => Err(k),
            },
            _ => Err(ErrorKindV::UnsupportedArgument("format"@)),
        },
        // readln is not pure; its contract is stated separately and
        // never consults this arm.
        Builtin::Readln => Ok(Value::Nil),
    }
}

/// What one call of the interactive line reader produced.
pub enum ReadOutcome {
    Line(String),
    InitFailed,
    ReadFailed,
}

/// Relies on `rustyline::DefaultEditor::new` and `Editor::readline`:
/// writes `prompt`, blocks for one line of interactive input, and
/// returns the line without its final newline, or which of the two
/// steps failed.  What comes back depends on the terminal.
#[verifier::external_body]
fn read_line_console(prompt: &str) -> ReadOutcome {
    match rustyline::DefaultEditor::new() {
        Err(_) => ReadOutcome::InitFailed,
        Ok(mut editor) => match editor.readline(prompt) {
            Ok(line) => ReadOutcome::Line(line),
            Err(_) => ReadOutcome::ReadFailed,
        },
    }
}

/// Relies on `write!` to `std::io::Stdout`: writes the bytes of `s` to
/// standard output; a write failure is ignored.
#[verifier::external_body]
fn emit_text(s: &str) {
    let _ = write!(std::io::stdout(), "{}", s);
}

/// Relies on `writeln!` to `std::io::Stdout`: writes the bytes of `s`
/// and a line break to standard output; a write failure is ignored.
#[verifier::external_body]
fn emit_line(s: &str) {
    let _ = writeln!(std::io::stdout(), "{}", s);
}

impl Builtin {
    /// The formal parameter list the builtin declares.
    pub fn parameters(&self) -> (r: Vec<Parameter>)
        ensures
            params_view(r@) == builtin_params(*self),
    {
        let param = |name: &str, is_pack: bool| -> (q: Parameter)
            ensures
                q@ == builtin_param(name@, is_pack),
            {
            Parameter::new(
                Token::new(
                    TokenType::Identifier,
                    String::from_str(name),
                    None,
                    Position::new(String::from_str("builtin"), 0),
                ),
                is_pack,
            )
        };
        let mut r: Vec<Parameter> = Vec::new();
        match self {
            Builtin::Len => r.push(param("value", false)),
            Builtin::First => r.push(param("value", false)),
            Builtin::Last => r.push(param("value", false)),
            Builtin::Write => r.push(param("value", true)),
            Builtin::WriteLn => r.push(param("value", true)),
            Builtin::Readln => r.push(param("prompt", false)),
            Builtin::Pop => r.push(param("popable", false)),
            Builtin::Push => {
                r.push(param("pushable", false));
                r.push(param("value", false));
            },
            Builtin::Format => {
                r.push(param("format", false));
                r.push(param("args", true));
            },
        }
        proof {
            assert(params_view(r@) =~= builtin_params(*self));
        }
        r
    }

    /// The name under which the builtin is called.
    pub fn to_string(&self) -> (r: String)
        ensures
            r@ == builtin_name(*self),
    {
        match self {
            Builtin::Len => String::from_str("len"),
            Builtin::First => String::from_str("first"),
            Builtin::Last => String::from_str("last"),
            Builtin::Write => String::from_str("write"),
            Builtin::WriteLn => String::from_str("writeln"),
            Builtin::Readln => String::from_str("readln"),
            Builtin::Pop => String::from_str("pop"),
            Builtin::Push => String::from_str("push"),
            Builtin::Format => String::from_str("format"),
        }
    }

    /// The function-table entries for all builtin functions, in a fixed
    /// order: each is a declaration with the builtin's name and
    /// parameters and no block.
    pub fn init() -> (r: Vec<FunctionStatement>)
        ensures
            r@.len() == 9,
            forall|i: int| 0 <= i < 9 ==> (#[trigger] r@[i])@ == builtin_function(builtin_at(i)),
    {
        let order = [
            Builtin::Len,
            Builtin::First,
            Builtin::Last,
            Builtin::Format,
            Builtin::Write,
            Builtin::WriteLn,
            Builtin::Readln,
            Builtin::Pop,
            Builtin::Push,
        ];
        let mut r: Vec<FunctionStatement> = Vec::new();
        let mut i: usize = 0;
        while i < 9
            invariant
                i <= 9,
                r@.len() == i,
                forall|j: int| 0 <= j < i ==> (#[trigger] r@[j])@ == builtin_function(builtin_at(j)),
                order@ =~= seq![
                    Builtin::Len, Builtin::First, Builtin::Last, Builtin::Format, Builtin::Write,
                    Builtin::WriteLn, Builtin::Readln, Builtin::Pop, Builtin::Push,
                ],
            decreases 9 - i,
        {
            let b = order[i];
            proof {
                assert(b == builtin_at(i as int));
            }
            let f = FunctionStatement::new(
                Token::new(
                    TokenType::Identifier,
                    b.to_string(),
                    None,
                    Position::new(String::from_str("builtin"), 0),
                ),
                b.parameters(),
                None,
            );
            r.push(f);
            i = i + 1;
        }
        r
    }

    /// The builtin that a token names, or `UnknownBuiltin` at the
    /// token's position.
    pub fn try_from(value: Token) -> (r: Result<Builtin, Error>)
        ensures
            match r {
                Ok(b) => builtin_of_name(value@.lexeme) == Some(b),
                Err(e) => builtin_of_name(value@.lexeme) is None && e@.kind
                    == ErrorKindV::UnknownBuiltin(value@.lexeme) && e@.position == value@.position,
            },
    {
        let lex = &value.lexeme;
        if lex.eq(&String::from_str("len")) {
            Ok(Builtin::Len)
        } else if lex.eq(&String::from_str("first")) {
            Ok(Builtin::First)
        } else if lex.eq(&String::from_str("last")) {
            Ok(Builtin::Last)
        } else if lex.eq(&String::from_str("write")) {
            Ok(Builtin::Write)
        } else if lex.eq(&String::from_str("writeln")) {
            Ok(Builtin::WriteLn)
        } else if lex.eq(&String::from_str("readln")) {
            Ok(Builtin::Readln)
        } else if lex.eq(&String::from_str("pop")) {
            Ok(Builtin::Pop)
        } else if lex.eq(&String::from_str("push")) {
            Ok(Builtin::Push)
        } else if lex.eq(&String::from_str("format")) {
            Ok(Builtin::Format)
        } else {
            Err(Error::new(ErrorKind::UnknownBuiltin(value.lexeme.clone()), value.position))
        }
    }

    /// Execute the builtin on evaluated argument values.  Every builtin
    /// except `readln` computes the result that `pure_builtin_result`
    /// gives; `readln` returns whatever line the transport produced, or
    /// which of its two steps failed.
    pub fn execute(&self, args: Vec<Object>, position: Position) -> (r: Result<Object, Error>)
        requires
            args@.len() == builtin_params(*self).len(),
        ensures
            *self != Builtin::Readln ==> match pure_builtin_result(*self, seq_view(args@)) {
                Ok(v) => r matches Ok(o) && o@ == v,
                Err(k) => r matches Err(e) && e@.kind == k && e@.position == position@,
            },
            *self == Builtin::Readln ==> match r {
                Ok(o) => o@ matches Value::Str(_),
                Err(e) => (e@.kind == ErrorKindV::ReadInitFailed || e@.kind
                    == ErrorKindV::ReadFailed) && e@.position == position@,
            },
    {
        let ghost argsv = seq_view(args@);
        match self {
            Builtin::Len => match &args[0] {
                Object::Str(s) => {
                    let count = s.as_str().unicode_len();
                    let r = Object::Number(number_from_count(count));
                    proof {
                        assert(argsv[0] == obj_view(args@[0]));
                        assert(argsv[0] matches Value::Str(t) && t == s@);
                        assert(pure_builtin_result(Builtin::Len, argsv) == Ok::<Value, ErrorKindV>(
                            Value::Number(ieee_from_count(s@.len() as usize)),
                        ));
                        assert(count == s@.len() as usize);
                        assert(r@ == Value::Number(ieee_from_count(s@.len() as usize)));
                    }
                    Ok(r)
                },
                Object::Array(v) => {
                    let r = Object::Number(number_from_count(v.len()));
                    proof {
                        assert(argsv[0] matches Value::Array(a) && a.len() == v@.len());
                        assert(r@ == Value::Number(ieee_from_count(v@.len() as usize)));
                    }
                    Ok(r)
                },
                _ => Err(
                    Error::new(
                        ErrorKind::UnsupportedArgument(String::from_str("len")),
                        position,
                    ),
                ),
            },
            Builtin::First => match &args[0] {
                Object::Array(v) => {
                    if v.len() > 0 {
                        let r = clone_object(&v[0]);
                        proof {
                            assert(argsv[0]->Array_0[0] == obj_view(v@[0]));
                        }
                        Ok(r)
                    } else {
                        Ok(Object::Nil)
                    }
                },
                _ => Err(
                    Error::new(
                        ErrorKind::UnsupportedArgument(String::from_str("first")),
                        position,
                    ),
                ),
            },
            Builtin::Last => match &args[0] {
                Object::Array(v) => {
                    if v.len() > 0 {
                        let r = clone_object(&v[v.len() - 1]);
                        proof {
                            assert(argsv[0]->Array_0.last() == obj_view(v@.last()));
                        }
                        Ok(r)
                    } else {
                        Ok(Object::Nil)
                    }
                },
                _ => Err(
                    Error::new(
                        ErrorKind::UnsupportedArgument(String::from_str("last")),
                        position,
                    ),
                ),
            },
            Builtin::Pop => match &args[0] {
                Object::Array(v) => {
                    if v.len() > 0 {
                        let r = clone_object(&v[v.len() - 1]);
                        proof {
                            assert(argsv[0]->Array_0.last() == obj_view(v@.last()));
                        }
                        Ok(r)
                    } else {
                        Ok(Object::Nil)
                    }
                },
                _ => Err(
                    Error::new(
                        ErrorKind::UnsupportedArgument(String::from_str("pop")),
                        position,
                    ),
                ),
            },
            Builtin::Push => match &args[0] {
                Object::Array(_) => {
                    let copy = clone_object(&args[0]);
                    match copy {
                        Object::Array(mut v) => {
                            let item = clone_object(&args[1]);
                            v.push(item);
                            let r = Object::Array(v);
                            proof {
                                assert(r@->Array_0 =~= argsv[0]->Array_0.push(argsv[1]));
                            }
                            Ok(r)
                        },
                        _ => Err(
                            Error::new(
                                ErrorKind::UnsupportedArgument(String::from_str("push")),
                                position,
                            ),
                        ),
                    }
                },
                _ => Err(
                    Error::new(
                        ErrorKind::UnsupportedArgument(String::from_str("push")),
                        position,
                    ),
                ),
            },
            Builtin::Write => {
                let text = object_text(&args[0]);
                emit_text(text.as_str());
                Ok(Object::Nil)
            },
            Builtin::WriteLn => {
                let text = object_text(&args[0]);
                emit_line(text.as_str());
                Ok(Object::Nil)
            },
            Builtin::Format => {
                let template = object_text(&args[0]);
                match &args[1] {
                    Object::Array(items) => {
                        proof {
                            assert(argsv[1] == obj_view(args@[1]));
                            assert(argsv[1]->Array_0 =~= seq_view(items@));
                        }
                        match format_text(&template, items) {
                            Ok(s) => Ok(Object::Str(s)),
                            Err(k) => Err(Error::new(k, position)),
                        }
                    },
                    _ => Err(
                        Error::new(
                            ErrorKind::UnsupportedArgument(String::from_str("format")),
                            position,
                        ),
                    ),
                }
            },
            Builtin::Readln => {
                let prompt = object_text(&args[0]);
                match read_line_console(prompt.as_str()) {
                    ReadOutcome::Line(line) => Ok(Object::Str(line)),
                    ReadOutcome::InitFailed => Err(
                        Error::new(ErrorKind::ReadInitFailed, position),
                    ),
                    ReadOutcome::ReadFailed => Err(Error::new(ErrorKind::ReadFailed, position)),
                }
            },
        }
    }
}

} // verus!
