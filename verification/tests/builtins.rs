use treewalk::common::error::ErrorKind;
use treewalk::common::object::{object_equals, object_text, Object};
use treewalk::common::position::Position;
use treewalk::common::token::{Token, TokenType};
use treewalk::runtime::builtin::Builtin;

fn pos() -> Position {
    Position::new("test".to_string(), 1)
}

fn num(x: f64) -> Object {
    Object::Number(x.to_bits())
}

fn text(s: &str) -> Object {
    Object::Str(s.to_string())
}

fn run(b: Builtin, args: Vec<Object>) -> Result<Object, treewalk::common::error::Error> {
    b.execute(args, pos())
}

#[test]
fn format_fills_auto_placeholders_in_order() {
    let r = run(
        Builtin::Format,
        vec![text("{}-{}"), Object::Array(vec![num(1.0), num(2.0)])],
    )
    .unwrap();
    match r {
        Object::Str(s) => assert_eq!(s, "1-2"),
        _ => panic!("expected a string"),
    }
}

#[test]
fn format_indexed_placeholders_repeat_and_reorder() {
    let r = run(
        Builtin::Format,
        vec![text("{1}-{0}"), Object::Array(vec![num(1.0), num(2.0)])],
    )
    .unwrap();
    match r {
        Object::Str(s) => assert_eq!(s, "2-1"),
        _ => panic!("expected a string"),
    }
    let twice = run(
        Builtin::Format,
        vec![text("{0}{0}"), Object::Array(vec![num(7.0)])],
    )
    .unwrap();
    match twice {
        Object::Str(s) => assert_eq!(s, "77"),
        _ => panic!("expected a string"),
    }
}

#[test]
fn format_brace_escapes() {
    let r = run(Builtin::Format, vec![text("{{}}"), Object::Array(vec![])]).unwrap();
    match r {
        Object::Str(s) => assert_eq!(s, "{}"),
        _ => panic!("expected a string"),
    }
}

#[test]
fn format_without_enough_arguments_fails() {
    let e = run(Builtin::Format, vec![text("{}"), Object::Array(vec![])]);
    assert!(matches!(e.expect_err("must fail").kind, ErrorKind::ArgumentCount));
    let e2 = run(
        Builtin::Format,
        vec![text("{5}"), Object::Array(vec![num(1.0)])],
    );
    assert!(matches!(e2.expect_err("must fail").kind, ErrorKind::ArgumentCount));
}

#[test]
fn format_rejects_bad_placeholders() {
    let e = run(
        Builtin::Format,
        vec![text("{x}"), Object::Array(vec![num(1.0)])],
    );
    assert!(matches!(e.expect_err("must fail").kind, ErrorKind::InvalidPlaceholder('x')));
    let e2 = run(Builtin::Format, vec![text("}x"), Object::Array(vec![])]);
    assert!(matches!(e2.expect_err("must fail").kind, ErrorKind::UnclosedPlaceholder));
    let e3 = run(Builtin::Format, vec![text("x}"), Object::Array(vec![])]);
    assert!(matches!(e3.expect_err("must fail").kind, ErrorKind::UnclosedPlaceholder));
}

#[test]
fn format_renders_all_value_shapes() {
    let arr = Object::Array(vec![
        num(1.5),
        text("hi"),
        Object::Boolean(true),
        Object::Nil,
        Object::Array(vec![num(1.0), num(2.0)]),
    ]);
    let r = run(
        Builtin::Format,
        vec![text("{} {} {} {} {}"), arr],
    )
    .unwrap();
    match r {
        Object::Str(s) => assert_eq!(s, "1.5 hi true nil [1, 2]"),
        _ => panic!("expected a string"),
    }
}

#[test]
fn format_needs_an_array_of_arguments() {
    let e = run(Builtin::Format, vec![text("{}"), num(1.0)]);
    assert!(matches!(e.expect_err("must fail").kind, ErrorKind::UnsupportedArgument(_)));
}

#[test]
fn rendering_trims_needless_digits() {
    assert_eq!(object_text(&num(1.0)), "1");
    assert_eq!(object_text(&num(2.5)), "2.5");
    assert_eq!(object_text(&num(-3.0)), "-3");
    assert_eq!(object_text(&Object::Nil), "nil");
    assert_eq!(object_text(&Object::Boolean(false)), "false");
}

#[test]
fn write_and_writeln_return_nil() {
    let r = run(Builtin::Write, vec![text("")]).unwrap();
    assert!(matches!(r, Object::Nil));
    let r2 = run(Builtin::WriteLn, vec![text("")]).unwrap();
    assert!(matches!(r2, Object::Nil));
}

#[test]
fn push_execution_appends_a_copy() {
    let r = run(
        Builtin::Push,
        vec![Object::Array(vec![num(1.0)]), num(2.0)],
    )
    .unwrap();
    assert!(object_equals(&r, &Object::Array(vec![num(1.0), num(2.0)])));
    let bad = run(Builtin::Push, vec![num(1.0), num(2.0)]);
    assert!(matches!(bad.expect_err("must fail").kind, ErrorKind::UnsupportedArgument(_)));
}

#[test]
fn builtin_names_round_trip() {
    let names = [
        "len", "first", "last", "write", "writeln", "readln", "pop", "push", "format",
    ];
    for name in names {
        let tok = Token::new(TokenType::Identifier, name.to_string(), None, pos());
        let b = Builtin::try_from(tok).expect("known builtin");
        assert_eq!(b.to_string(), name);
    }
    let tok = Token::new(TokenType::Identifier, "frobnicate".to_string(), None, pos());
    let e = Builtin::try_from(tok).expect_err("unknown builtin");
    assert!(matches!(e.kind, ErrorKind::UnknownBuiltin(n) if n == "frobnicate"));
}

#[test]
fn builtin_parameter_lists() {
    assert_eq!(Builtin::Len.parameters().len(), 1);
    assert_eq!(Builtin::Push.parameters().len(), 2);
    assert_eq!(Builtin::Format.parameters().len(), 2);
    let write_params = Builtin::Write.parameters();
    assert!(write_params[0].is_pack);
    let init = Builtin::init();
    assert_eq!(init.len(), 9);
    assert!(init.iter().all(|f| f.block.is_none()));
}

#[test]
fn error_messages_name_their_cause() {
    let e = run(Builtin::Len, vec![Object::Boolean(true)]).expect_err("must fail");
    assert_eq!(e.message(), "argument not supported");
    assert_eq!(e.position.line, 1);
}

#[test]
fn len_counts_characters_not_bytes() {
    let r = run(Builtin::Len, vec![text("h\u{e9}llo")]).unwrap();
    match r {
        Object::Number(bits) => assert_eq!(f64::from_bits(bits), 5.0),
        _ => panic!("expected a number"),
    }
    let empty = run(Builtin::Len, vec![text("")]).unwrap();
    match empty {
        Object::Number(bits) => assert_eq!(f64::from_bits(bits), 0.0),
        _ => panic!("expected a number"),
    }
}

#[test]
fn format_drops_a_trailing_unfinished_placeholder() {
    let r = run(Builtin::Format, vec![text("x{"), Object::Array(vec![])]).unwrap();
    match r {
        Object::Str(s) => assert_eq!(s, "x"),
        _ => panic!("expected a string"),
    }
    let r2 = run(Builtin::Format, vec![text("x{12"), Object::Array(vec![])]).unwrap();
    match r2 {
        Object::Str(s) => assert_eq!(s, "x"),
        _ => panic!("expected a string"),
    }
}
