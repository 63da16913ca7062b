use hxxc::ir2::model::{IR2IntType, IR2Type};
use hxxc::ir1::to_ir2::transform_type;
use hxxc::common::span::{ParseCtx, Span, SpanPlace};
use std::rc::Rc;

fn place() -> SpanPlace {
    let ctx = Rc::new(ParseCtx { filename: "t.hx".to_string(), lines: vec!["abc".to_string()] });
    SpanPlace { ctx, start_line: 1, start_col: 0, end_line: 1, end_col: 3 }
}

#[test]
fn pointer_to_pointer_to_i32() {
    let ty = Span { span: place(), t: "**i32" };
    assert_eq!(
        transform_type(&ty).unwrap(),
        IR2Type::Ptr(Box::new(IR2Type::Ptr(Box::new(IR2Type::Int(IR2IntType::I32)))))
    );
}

#[test]
fn pointer_to_bool() {
    let ty = Span { span: place(), t: "*bool" };
    assert_eq!(transform_type(&ty).unwrap(), IR2Type::Ptr(Box::new(IR2Type::Int(IR2IntType::Bool))));
}
