use dataflow_expression::ast::{
    AstExpr, CaseWhenBranch, Column, FunctionExpr, InValue, Literal, Relation, SqlBinaryOperator,
    SqlType, UnaryOperator,
};
use dataflow_expression::dialect::Dialect;
use dataflow_expression::expr::{BinaryOperator, BuiltinFunction, Expr};
use dataflow_expression::lower::{LowerContext, StaticContext};
use dataflow_expression::types::{Collation, DfType, PgEnumMetadata};
use dataflow_expression::values::DfValue;

fn no_op_lower_context() -> StaticContext {
    StaticContext { columns: vec![], types: vec![] }
}

fn col(table: Option<&str>, name: &str) -> Column {
    Column {
        name: name.to_string(),
        table: table.map(|t| Relation { schema: None, name: t.to_string() }),
    }
}

#[test]
fn postgresql_text_literaal() {
    let input = AstExpr::Literal(Literal::String("abc".to_string()));
    let result =
        Expr::lower(input, Dialect::default_postgresql(), &no_op_lower_context()).unwrap();
    assert_eq!(result.ty(), &DfType::Unknown);
}

#[test]
fn simple_column_reference() {
    let input = AstExpr::Column(col(Some("t"), "x"));
    let ctx = StaticContext { columns: vec![(col(Some("t"), "x"), 0, DfType::Int)], types: vec![] };
    let result = Expr::lower(input, Dialect::default_mysql(), &ctx).unwrap();
    assert_eq!(result, Expr::Column { index: 0, ty: DfType::Int });
}

#[test]
fn cast_to_custom_type() {
    let input = AstExpr::Cast {
        expr: Box::new(AstExpr::Literal(Literal::String("foo".to_string()))),
        ty: SqlType::Other(Relation { schema: Some("something".to_string()), name: "custom".to_string() }),
        postgres_style: true,
    };
    let enum_ty = DfType::from_enum_variants(
        vec!["foo".to_string(), "bar".to_string()],
        Some(PgEnumMetadata {
            name: "custom".to_string(),
            schema: "something".to_string(),
            oid: 12345,
            array_oid: 12344,
        }),
    );
    let enum_ty2 = DfType::from_enum_variants(
        vec!["foo".to_string(), "bar".to_string()],
        Some(PgEnumMetadata {
            name: "custom".to_string(),
            schema: "something".to_string(),
            oid: 12345,
            array_oid: 12344,
        }),
    );
    let ctx = StaticContext {
        columns: vec![],
        types: vec![(
            Relation { schema: Some("something".to_string()), name: "custom".to_string() },
            enum_ty,
        )],
    };
    let result = Expr::lower(input, Dialect::default_postgresql(), &ctx).unwrap();
    assert_eq!(
        result,
        Expr::Cast {
            expr: Box::new(Expr::Literal {
                val: DfValue::Text("foo".to_string()),
                ty: DfType::Unknown
            }),
            ty: enum_ty2,
            null_on_failure: false
        }
    );
}

#[test]
fn call_coalesce() {
    let input = AstExpr::Call(FunctionExpr::Call {
        name: "coalesce".to_string(),
        arguments: vec![
            AstExpr::Column(col(Some("t"), "x")),
            AstExpr::Literal(Literal::Integer(2)),
        ],
    });
    let ctx = StaticContext { columns: vec![(col(Some("t"), "x"), 0, DfType::Int)], types: vec![] };
    let result = Expr::lower(input, Dialect::default_mysql(), &ctx).unwrap();
    assert_eq!(
        result,
        Expr::Call {
            func: Box::new(BuiltinFunction::Coalesce(
                Expr::Column { index: 0, ty: DfType::Int },
                vec![Expr::Literal { val: DfValue::Int(2), ty: DfType::BigInt }]
            )),
            ty: DfType::Int
        }
    );
}

#[test]
fn call_concat_with_texts() {
    let input = AstExpr::Call(FunctionExpr::Call {
        name: "concat".to_string(),
        arguments: vec![
            AstExpr::Literal(Literal::String("My".to_string())),
            AstExpr::Literal(Literal::String("SQ".to_string())),
            AstExpr::Literal(Literal::String("L".to_string())),
        ],
    });
    let res = Expr::lower(input, Dialect::default_mysql(), &no_op_lower_context()).unwrap();
    assert_eq!(
        res,
        Expr::Call {
            func: Box::new(BuiltinFunction::Concat(
                Expr::Literal { val: DfValue::Text("My".to_string()), ty: DfType::default_text() },
                vec![
                    Expr::Literal {
                        val: DfValue::Text("SQ".to_string()),
                        ty: DfType::default_text()
                    },
                    Expr::Literal {
                        val: DfValue::Text("L".to_string()),
                        ty: DfType::default_text()
                    },
                ],
            )),
            ty: DfType::default_text(),
        }
    );
}

#[test]
fn substring_from_for() {
    let input = AstExpr::Call(FunctionExpr::Substring {
        string: Box::new(AstExpr::Column(col(None, "col"))),
        pos: Some(Box::new(AstExpr::Literal(Literal::UnsignedInteger(1)))),
        len: Some(Box::new(AstExpr::Literal(Literal::UnsignedInteger(7)))),
    });
    let ctx = StaticContext {
        columns: vec![(col(None, "col"), 0, DfType::Text(Collation::Citext))],
        types: vec![],
    };
    let res = Expr::lower(input, Dialect::default_mysql(), &ctx).unwrap();
    assert_eq!(
        res,
        Expr::Call {
            func: Box::new(BuiltinFunction::Substring(
                Expr::Column { index: 0, ty: DfType::Text(Collation::Citext) },
                Some(Expr::Literal { val: DfValue::UnsignedInt(1), ty: DfType::UnsignedBigInt }),
                Some(Expr::Literal { val: DfValue::UnsignedInt(7), ty: DfType::UnsignedBigInt })
            )),
            ty: DfType::Text(Collation::Citext)
        }
    );
}

#[test]
fn substr_regular() {
    let input = AstExpr::Call(FunctionExpr::Call {
        name: "substr".to_string(),
        arguments: vec![
            AstExpr::Literal(Literal::String("abcdefghi".to_string())),
            AstExpr::Literal(Literal::UnsignedInteger(1)),
            AstExpr::Literal(Literal::UnsignedInteger(7)),
        ],
    });
    let res = Expr::lower(input, Dialect::default_mysql(), &no_op_lower_context()).unwrap();
    assert_eq!(
        res,
        Expr::Call {
            func: Box::new(BuiltinFunction::Substring(
                Expr::Literal {
                    val: DfValue::Text("abcdefghi".to_string()),
                    ty: DfType::default_text()
                },
                Some(Expr::Cast {
                    expr: Box::new(Expr::Literal {
                        val: DfValue::UnsignedInt(1),
                        ty: DfType::UnsignedBigInt
                    }),
                    ty: DfType::BigInt,
                    null_on_failure: false
                }),
                Some(Expr::Cast {
                    expr: Box::new(Expr::Literal {
                        val: DfValue::UnsignedInt(7),
                        ty: DfType::UnsignedBigInt
                    }),
                    ty: DfType::BigInt,
                    null_on_failure: false
                })
            )),
            ty: DfType::default_text()
        }
    );
}

#[test]
fn substring_regular() {
    let input = AstExpr::Call(FunctionExpr::Call {
        name: "substring".to_string(),
        arguments: vec![
            AstExpr::Literal(Literal::String("abcdefghi".to_string())),
            AstExpr::Literal(Literal::UnsignedInteger(1)),
            AstExpr::Literal(Literal::UnsignedInteger(7)),
        ],
    });
    let res = Expr::lower(input, Dialect::default_mysql(), &no_op_lower_context()).unwrap();
    assert_eq!(
        res,
        Expr::Call {
            func: Box::new(BuiltinFunction::Substring(
                Expr::Literal {
                    val: DfValue::Text("abcdefghi".to_string()),
                    ty: DfType::default_text()
                },
                Some(Expr::Cast {
                    expr: Box::new(Expr::Literal {
                        val: DfValue::UnsignedInt(1),
                        ty: DfType::UnsignedBigInt
                    }),
                    ty: DfType::BigInt,
                    null_on_failure: false
                }),
                Some(Expr::Cast {
                    expr: Box::new(Expr::Literal {
                        val: DfValue::UnsignedInt(7),
                        ty: DfType::UnsignedBigInt
                    }),
                    ty: DfType::BigInt,
                    null_on_failure: false
                })
            )),
            ty: DfType::default_text()
        }
    );
}

#[test]
fn substring_without_string_arg() {
    let input = AstExpr::Call(FunctionExpr::Substring {
        string: Box::new(AstExpr::Literal(Literal::UnsignedInteger(123))),
        pos: Some(Box::new(AstExpr::Literal(Literal::UnsignedInteger(2)))),
        len: None,
    });
    let res = Expr::lower(input, Dialect::default_mysql(), &no_op_lower_context()).unwrap();
    assert_eq!(res.ty(), &DfType::default_text());
}

fn greatest_of(args: Vec<Literal>) -> AstExpr {
    AstExpr::Call(FunctionExpr::Call {
        name: "greatest".to_string(),
        arguments: args.into_iter().map(AstExpr::Literal).collect(),
    })
}

fn infers_type(args: Vec<Literal>, dialect: Dialect, expected_ty: DfType) {
    let result = Expr::lower(greatest_of(args), dialect, &no_op_lower_context()).unwrap();
    assert_eq!(result.ty(), &expected_ty);
}

fn compares_as(args: Vec<Literal>, dialect: Dialect, expected_ty: DfType) {
    let result = Expr::lower(greatest_of(args), dialect, &no_op_lower_context()).unwrap();
    let compare_as = match result {
        Expr::Call { func, .. } => match *func {
            BuiltinFunction::Greatest { compare_as, .. } => compare_as,
            _ => panic!("Wrong function"),
        },
        _ => panic!("Not a function call"),
    };
    assert_eq!(compare_as, expected_ty);
}

#[test]
fn greatest_inferred_type() {
    infers_type(
        vec![Literal::Null, Literal::Null],
        Dialect::default_postgresql(),
        DfType::default_text(),
    );
    infers_type(
        vec![Literal::String("123".to_string()), Literal::Integer(23)],
        Dialect::default_postgresql(),
        DfType::BigInt,
    );
    infers_type(
        vec![Literal::String("123".to_string()), Literal::String("456".to_string())],
        Dialect::default_postgresql(),
        DfType::default_text(),
    );
    infers_type(
        vec![
            Literal::String("123".to_string()),
            Literal::Float { repr: "1.23".to_string(), precision: 2 },
        ],
        Dialect::default_postgresql(),
        DfType::Float,
    );
    infers_type(
        vec![Literal::Null, Literal::Integer(23)],
        Dialect::default_mysql(),
        DfType::BigInt,
    );
    infers_type(vec![Literal::Null, Literal::Null], Dialect::default_mysql(), DfType::Binary(0));
    infers_type(
        vec![
            Literal::String("123".to_string()),
            Literal::Float { repr: "1.23".to_string(), precision: 2 },
        ],
        Dialect::default_mysql(),
        DfType::default_text(),
    );
}

#[test]
fn greatest_compare_as() {
    compares_as(
        vec![Literal::Null, Literal::Null],
        Dialect::default_postgresql(),
        DfType::default_text(),
    );
    compares_as(vec![Literal::Null, Literal::Null], Dialect::default_mysql(), DfType::Unknown);
    compares_as(
        vec![
            Literal::Null,
            Literal::String("a".to_string()),
            Literal::String("b".to_string()),
        ],
        Dialect::default_mysql(),
        DfType::Unknown,
    );
    compares_as(
        vec![
            Literal::Null,
            Literal::String("a".to_string()),
            Literal::String("b".to_string()),
        ],
        Dialect::default_postgresql(),
        DfType::default_text(),
    );
    compares_as(
        vec![Literal::UnsignedInteger(12), Literal::Integer(-123)],
        Dialect::default_mysql(),
        DfType::BigInt,
    );
    compares_as(
        vec![Literal::UnsignedInteger(12), Literal::String("123".to_string())],
        Dialect::default_mysql(),
        DfType::default_text(),
    );
    compares_as(
        vec![
            Literal::String("A".to_string()),
            Literal::String("b".to_string()),
            Literal::Integer(1),
        ],
        Dialect::default_mysql(),
        DfType::default_text(),
    );
}

#[test]
fn eq_returns_bool() {
    let input = AstExpr::BinaryOp {
        lhs: Box::new(AstExpr::Column(col(None, "x"))),
        op: SqlBinaryOperator::Equal,
        rhs: Box::new(AstExpr::Literal(Literal::UnsignedInteger(1))),
    };
    let ctx = StaticContext {
        columns: vec![(col(None, "x"), 0, DfType::default_text())],
        types: vec![],
    };
    let result = Expr::lower(input, Dialect::default_mysql(), &ctx).unwrap();
    assert_eq!(*result.ty(), DfType::Bool);
}

#[test]
fn lowered_json_op_expr_types() {
    for op in [
        SqlBinaryOperator::QuestionMark,
        SqlBinaryOperator::QuestionMarkPipe,
        SqlBinaryOperator::QuestionMarkAnd,
    ] {
        let input = AstExpr::BinaryOp {
            lhs: Box::new(AstExpr::Literal(Literal::String("{\"abc\": 42}".to_string()))),
            op,
            rhs: Box::new(AstExpr::Literal(Literal::String("abc".to_string()))),
        };
        let result =
            Expr::lower(input, Dialect::default_postgresql(), &no_op_lower_context()).unwrap();
        assert_eq!(*result.ty(), DfType::Bool);
    }
}

#[test]
fn array_expr() {
    let expr = AstExpr::Array(vec![
        AstExpr::Array(vec![
            AstExpr::Literal(Literal::UnsignedInteger(1)),
            AstExpr::Cast {
                expr: Box::new(AstExpr::Literal(Literal::String("2".to_string()))),
                ty: SqlType::Int,
                postgres_style: true,
            },
        ]),
        AstExpr::Array(vec![
            AstExpr::Literal(Literal::UnsignedInteger(3)),
            AstExpr::Literal(Literal::UnsignedInteger(4)),
        ]),
    ]);
    let result =
        Expr::lower(expr, Dialect::default_postgresql(), &no_op_lower_context()).unwrap();
    assert_eq!(
        result,
        Expr::Array {
            elements: vec![
                Expr::Literal { val: DfValue::UnsignedInt(1), ty: DfType::UnsignedBigInt },
                Expr::Cast {
                    expr: Box::new(Expr::Literal {
                        val: DfValue::Text("2".to_string()),
                        ty: DfType::Unknown
                    }),
                    ty: DfType::Int,
                    null_on_failure: false
                },
                Expr::Literal { val: DfValue::UnsignedInt(3), ty: DfType::UnsignedBigInt },
                Expr::Literal { val: DfValue::UnsignedInt(4), ty: DfType::UnsignedBigInt },
            ],
            shape: vec![2, 2],
            ty: DfType::Array(Box::new(DfType::Array(Box::new(DfType::UnsignedBigInt))))
        }
    );
}

#[test]
fn op_some_to_any() {
    let expr = AstExpr::OpSome {
        lhs: Box::new(AstExpr::Literal(Literal::UnsignedInteger(1))),
        op: SqlBinaryOperator::Equal,
        rhs: Box::new(AstExpr::Literal(Literal::String("{1,2}".to_string()))),
    };
    let result =
        Expr::lower(expr, Dialect::default_postgresql(), &no_op_lower_context()).unwrap();
    assert_eq!(
        result,
        Expr::OpAny {
            op: BinaryOperator::Equal,
            left: Box::new(Expr::Literal {
                val: DfValue::UnsignedInt(1),
                ty: DfType::UnsignedBigInt
            }),
            right: Box::new(Expr::Cast {
                expr: Box::new(Expr::Literal {
                    val: DfValue::Text("{1,2}".to_string()),
                    ty: DfType::Unknown
                }),
                ty: DfType::Array(Box::new(DfType::UnsignedBigInt)),
                null_on_failure: false
            }),
            ty: DfType::Bool
        }
    );
}

#[test]
fn op_all() {
    let expr = AstExpr::OpAll {
        lhs: Box::new(AstExpr::Literal(Literal::UnsignedInteger(1))),
        op: SqlBinaryOperator::Equal,
        rhs: Box::new(AstExpr::Literal(Literal::String("{1,1}".to_string()))),
    };
    let result =
        Expr::lower(expr, Dialect::default_postgresql(), &no_op_lower_context()).unwrap();
    assert_eq!(
        result,
        Expr::OpAll {
            op: BinaryOperator::Equal,
            left: Box::new(Expr::Literal {
                val: DfValue::UnsignedInt(1),
                ty: DfType::UnsignedBigInt
            }),
            right: Box::new(Expr::Cast {
                expr: Box::new(Expr::Literal {
                    val: DfValue::Text("{1,1}".to_string()),
                    ty: DfType::Unknown
                }),
                ty: DfType::Array(Box::new(DfType::UnsignedBigInt)),
                null_on_failure: false
            }),
            ty: DfType::Bool
        }
    );
}

#[test]
fn array_to_string() {
    let expr = AstExpr::Call(FunctionExpr::Call {
        name: "array_to_string".to_string(),
        arguments: vec![
            AstExpr::Array(vec![AstExpr::Literal(Literal::UnsignedInteger(1))]),
            AstExpr::Literal(Literal::String(",".to_string())),
            AstExpr::Literal(Literal::String("*".to_string())),
        ],
    });
    let result =
        Expr::lower(expr, Dialect::default_postgresql(), &no_op_lower_context()).unwrap();
    assert_eq!(
        result,
        Expr::Call {
            func: Box::new(BuiltinFunction::ArrayToString(
                Expr::Array {
                    elements: vec![Expr::Literal {
                        val: DfValue::UnsignedInt(1),
                        ty: DfType::UnsignedBigInt,
                    }],
                    shape: vec![1],
                    ty: DfType::Array(Box::new(DfType::UnsignedBigInt))
                },
                Expr::Literal { val: DfValue::Text(",".to_string()), ty: DfType::Unknown },
                Some(Expr::Literal { val: DfValue::Text("*".to_string()), ty: DfType::Unknown })
            )),
            ty: DfType::default_text()
        }
    );
}

#[test]
fn in_list_desugars_to_ors() {
    let input = AstExpr::In {
        lhs: Box::new(AstExpr::Column(col(None, "x"))),
        rhs: InValue::List(vec![
            AstExpr::Literal(Literal::Integer(1)),
            AstExpr::Literal(Literal::Integer(2)),
            AstExpr::Literal(Literal::Integer(3)),
        ]),
        negated: false,
    };
    let ctx = StaticContext { columns: vec![(col(None, "x"), 0, DfType::BigInt)], types: vec![] };
    let result = Expr::lower(input, Dialect::default_mysql(), &ctx).unwrap();
    let x = || Box::new(Expr::Column { index: 0, ty: DfType::BigInt });
    let lit = |i: i64| Box::new(Expr::Literal { val: DfValue::Int(i), ty: DfType::BigInt });
    let eq = |i: i64| {
        Box::new(Expr::Op { op: BinaryOperator::Equal, left: x(), right: lit(i), ty: DfType::Bool })
    };
    assert_eq!(
        result,
        Expr::Op {
            op: BinaryOperator::Or,
            left: Box::new(Expr::Op {
                op: BinaryOperator::Or,
                left: eq(1),
                right: eq(2),
                ty: DfType::Bool
            }),
            right: eq(3),
            ty: DfType::Bool
        }
    );
}

#[test]
fn not_in_list_desugars_to_ands() {
    let input = AstExpr::In {
        lhs: Box::new(AstExpr::Column(col(None, "x"))),
        rhs: InValue::List(vec![
            AstExpr::Literal(Literal::Integer(1)),
            AstExpr::Literal(Literal::Integer(2)),
        ]),
        negated: true,
    };
    let ctx = StaticContext { columns: vec![(col(None, "x"), 0, DfType::BigInt)], types: vec![] };
    let result = Expr::lower(input, Dialect::default_mysql(), &ctx).unwrap();
    let x = || Box::new(Expr::Column { index: 0, ty: DfType::BigInt });
    let lit = |i: i64| Box::new(Expr::Literal { val: DfValue::Int(i), ty: DfType::BigInt });
    let neq = |i: i64| {
        Box::new(Expr::Not {
            expr: Box::new(Expr::Op {
                op: BinaryOperator::Equal,
                left: x(),
                right: lit(i),
                ty: DfType::Bool,
            }),
            ty: DfType::Bool,
        })
    };
    assert_eq!(
        result,
        Expr::Op { op: BinaryOperator::And, left: neq(1), right: neq(2), ty: DfType::Bool }
    );
}

#[test]
fn empty_in_list_lowers_to_bool_null() {
    let input = AstExpr::In {
        lhs: Box::new(AstExpr::Column(col(None, "x"))),
        rhs: InValue::List(vec![]),
        negated: false,
    };
    let result = Expr::lower(input, Dialect::default_mysql(), &no_op_lower_context()).unwrap();
    assert_eq!(result, Expr::Literal { val: DfValue::Null, ty: DfType::Bool });
}

#[test]
fn empty_not_in_list_lowers_to_bool_one() {
    let input = AstExpr::In {
        lhs: Box::new(AstExpr::Column(col(None, "x"))),
        rhs: InValue::List(vec![]),
        negated: true,
    };
    let result = Expr::lower(input, Dialect::default_mysql(), &no_op_lower_context()).unwrap();
    assert_eq!(result, Expr::Literal { val: DfValue::Int(1), ty: DfType::Bool });
}

#[test]
fn exists_fails_unsupported() {
    for d in [Dialect::default_mysql(), Dialect::default_postgresql(), Dialect::default_mongodb()] {
        let r = Expr::lower(AstExpr::Exists, d, &no_op_lower_context());
        assert!(matches!(
            r,
            Err(dataflow_expression::error::ReadySetError::Unsupported(_))
        ));
    }
}

#[test]
fn variables_fail_unsupported() {
    for d in [Dialect::default_mysql(), Dialect::default_postgresql(), Dialect::default_mongodb()] {
        let r = Expr::lower(
            AstExpr::Variable("v".to_string()),
            d,
            &no_op_lower_context(),
        );
        assert!(matches!(
            r,
            Err(dataflow_expression::error::ReadySetError::Unsupported(_))
        ));
    }
}

#[test]
fn arity_errors_on_too_few_and_too_many() {
    let call = |args: Vec<AstExpr>| {
        AstExpr::Call(FunctionExpr::Call { name: "month".to_string(), arguments: args })
    };
    for args in [
        vec![],
        vec![
            AstExpr::Literal(Literal::Integer(1)),
            AstExpr::Literal(Literal::Integer(2)),
        ],
    ] {
        let r = Expr::lower(call(args), Dialect::default_mysql(), &no_op_lower_context());
        match r {
            Err(dataflow_expression::error::ReadySetError::ArityError(name)) => {
                assert_eq!(name, "month");
            }
            other => panic!("expected an arity error, got {:?}", other),
        }
    }
}

#[test]
fn unknown_function_fails() {
    let input = AstExpr::Call(FunctionExpr::Call {
        name: "frobnicate".to_string(),
        arguments: vec![],
    });
    let r = Expr::lower(input, Dialect::default_mysql(), &no_op_lower_context());
    match r {
        Err(dataflow_expression::error::ReadySetError::NoSuchFunction(name)) => {
            assert_eq!(name, "frobnicate");
        }
        other => panic!("expected an unknown-function error, got {:?}", other),
    }
}

#[test]
fn unary_not_and_neg() {
    let not_input = AstExpr::UnaryOp {
        op: UnaryOperator::Not,
        rhs: Box::new(AstExpr::Literal(Literal::Integer(1))),
    };
    let r = Expr::lower(not_input, Dialect::default_mysql(), &no_op_lower_context()).unwrap();
    assert_eq!(
        r,
        Expr::Not {
            expr: Box::new(Expr::Literal { val: DfValue::Int(1), ty: DfType::BigInt }),
            ty: DfType::Bool
        }
    );

    let neg_input = AstExpr::UnaryOp {
        op: UnaryOperator::Neg,
        rhs: Box::new(AstExpr::Literal(Literal::Integer(5))),
    };
    let r = Expr::lower(neg_input, Dialect::default_mysql(), &no_op_lower_context()).unwrap();
    assert_eq!(
        r,
        Expr::Op {
            op: BinaryOperator::Multiply,
            left: Box::new(Expr::Literal { val: DfValue::Int(5), ty: DfType::BigInt }),
            right: Box::new(Expr::Literal { val: DfValue::Int(-1), ty: DfType::Int }),
            ty: DfType::BigInt
        }
    );
}

#[test]
fn case_when_takes_first_branch_type() {
    let input = AstExpr::CaseWhen {
        branches: vec![CaseWhenBranch {
            condition: AstExpr::Literal(Literal::Boolean(true)),
            body: AstExpr::Literal(Literal::Integer(7)),
        }],
        else_expr: None,
    };
    let r = Expr::lower(input, Dialect::default_mysql(), &no_op_lower_context()).unwrap();
    assert_eq!(
        r,
        Expr::CaseWhen {
            branches: vec![dataflow_expression::expr::CaseWhenBranch {
                condition: Expr::Literal { val: DfValue::Bool(true), ty: DfType::Bool },
                body: Expr::Literal { val: DfValue::Int(7), ty: DfType::BigInt },
            }],
            else_expr: Box::new(Expr::Literal { val: DfValue::Null, ty: DfType::Unknown }),
            ty: DfType::BigInt
        }
    );
}

#[test]
fn round_defaults_missing_precision_to_zero() {
    let input = AstExpr::Call(FunctionExpr::Call {
        name: "round".to_string(),
        arguments: vec![AstExpr::Literal(Literal::Integer(7))],
    });
    let r = Expr::lower(input, Dialect::default_mysql(), &no_op_lower_context()).unwrap();
    assert_eq!(
        r,
        Expr::Call {
            func: Box::new(BuiltinFunction::Round(
                Expr::Literal { val: DfValue::Int(7), ty: DfType::BigInt },
                Expr::Literal { val: DfValue::Int(0), ty: DfType::Int },
            )),
            ty: DfType::BigInt
        }
    );
}

#[test]
fn json_object_is_gated_before_arity_under_mysql() {
    let input = AstExpr::Call(FunctionExpr::Call {
        name: "json_object".to_string(),
        arguments: vec![],
    });
    let r = Expr::lower(input, Dialect::default_mysql(), &no_op_lower_context());
    assert!(matches!(
        r,
        Err(dataflow_expression::error::ReadySetError::Unsupported(_))
    ));
}

#[test]
fn concat_takes_first_explicit_collation() {
    let input = AstExpr::Call(FunctionExpr::Call {
        name: "concat".to_string(),
        arguments: vec![
            AstExpr::Literal(Literal::Integer(1)),
            AstExpr::Column(col(None, "c")),
        ],
    });
    let ctx = StaticContext {
        columns: vec![(col(None, "c"), 0, DfType::Text(Collation::Citext))],
        types: vec![],
    };
    let r = Expr::lower(input, Dialect::default_mysql(), &ctx).unwrap();
    assert_eq!(r.ty(), &DfType::Text(Collation::Citext));
}

#[test]
fn greatest_requires_at_least_one_argument() {
    for d in [Dialect::default_mysql(), Dialect::default_postgresql(), Dialect::default_mongodb()] {
        let input = AstExpr::Call(FunctionExpr::Call {
            name: "greatest".to_string(),
            arguments: vec![],
        });
        let r = Expr::lower(input, d, &no_op_lower_context());
        assert!(matches!(
            r,
            Err(dataflow_expression::error::ReadySetError::ArityError(_))
        ));
    }
}

#[test]
fn case_when_with_explicit_else() {
    let input = AstExpr::CaseWhen {
        branches: vec![CaseWhenBranch {
            condition: AstExpr::Literal(Literal::Boolean(false)),
            body: AstExpr::Literal(Literal::String("yes".to_string())),
        }],
        else_expr: Some(Box::new(AstExpr::Literal(Literal::String("no".to_string())))),
    };
    let r = Expr::lower(input, Dialect::default_mysql(), &no_op_lower_context()).unwrap();
    assert_eq!(
        r,
        Expr::CaseWhen {
            branches: vec![dataflow_expression::expr::CaseWhenBranch {
                condition: Expr::Literal { val: DfValue::Bool(false), ty: DfType::Bool },
                body: Expr::Literal {
                    val: DfValue::Text("yes".to_string()),
                    ty: DfType::default_text()
                },
            }],
            else_expr: Box::new(Expr::Literal {
                val: DfValue::Text("no".to_string()),
                ty: DfType::default_text()
            }),
            ty: DfType::default_text()
        }
    );
}

#[test]
fn cast_expression_resolves_plain_types() {
    let input = AstExpr::Cast {
        expr: Box::new(AstExpr::Literal(Literal::String("5".to_string()))),
        ty: SqlType::BigInt,
        postgres_style: false,
    };
    let r = Expr::lower(input, Dialect::default_mysql(), &no_op_lower_context()).unwrap();
    assert_eq!(
        r,
        Expr::Cast {
            expr: Box::new(Expr::Literal {
                val: DfValue::Text("5".to_string()),
                ty: DfType::default_text()
            }),
            ty: DfType::BigInt,
            null_on_failure: false
        }
    );
}

#[test]
fn greatest_text_only_compares_as_text() {
    compares_as(
        vec![
            Literal::String("a".to_string()),
            Literal::String("b".to_string()),
        ],
        Dialect::default_mysql(),
        DfType::default_text(),
    );
    compares_as(
        vec![Literal::String("a".to_string())],
        Dialect::default_mysql(),
        DfType::default_text(),
    );
}

#[test]
fn greatest_falls_back_to_fixed_binary() {
    let input = AstExpr::Call(FunctionExpr::Call {
        name: "greatest".to_string(),
        arguments: vec![AstExpr::Column(col(None, "d"))],
    });
    let ctx = StaticContext { columns: vec![(col(None, "d"), 0, DfType::Date)], types: vec![] };
    let result = Expr::lower(input, Dialect::default_mysql(), &ctx).unwrap();
    let compare_as = match result {
        Expr::Call { func, .. } => match *func {
            BuiltinFunction::Greatest { compare_as, .. } => compare_as,
            _ => panic!("Wrong function"),
        },
        _ => panic!("Not a function call"),
    };
    assert_eq!(compare_as, DfType::Binary(65535));
}

#[test]
fn round_on_untyped_input_is_double() {
    let input = AstExpr::Call(FunctionExpr::Call {
        name: "round".to_string(),
        arguments: vec![AstExpr::Literal(Literal::Null)],
    });
    let r = Expr::lower(input, Dialect::default_mysql(), &no_op_lower_context()).unwrap();
    assert_eq!(r.ty(), &DfType::Double);
}
