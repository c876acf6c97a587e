use amplify_syn::ArgValue;
use amplify_syn::BoolLit;
use amplify_syn::ByteStrLit;
use amplify_syn::CharLit;
use amplify_syn::Error;
use amplify_syn::FloatLit;
use amplify_syn::IntLit;
use amplify_syn::Lit;
use amplify_syn::LitClass;
use amplify_syn::StrLit;
use amplify_syn::TypeExpr;
use amplify_syn::ValueClass;

fn str_value(s: &str) -> ArgValue {
    ArgValue::Literal(Lit::Str(StrLit {
        value: s.to_owned(),
    }))
}

fn type_value(code: &str) -> ArgValue {
    ArgValue::Type(TypeExpr {
        code: code.to_owned(),
    })
}

#[test]
fn from_strings() {
    assert_eq!(ArgValue::from_str_value("abc"), str_value("abc"));
    assert_eq!(ArgValue::from_string("abc".to_owned()), str_value("abc"));
}

#[test]
fn from_bytes() {
    let expected = ArgValue::Literal(Lit::ByteStr(ByteStrLit {
        value: vec![1, 2, 3],
    }));
    assert_eq!(ArgValue::from_bytes(&[1, 2, 3]), expected);
    assert_eq!(ArgValue::from_byte_vec(vec![1, 2, 3]), expected);
}

#[test]
fn from_char_and_ints() {
    assert_eq!(
        ArgValue::from_char('x'),
        ArgValue::Literal(Lit::Char(CharLit { value: 'x' }))
    );
    assert_eq!(
        ArgValue::from_usize(42),
        ArgValue::Literal(Lit::Int(IntLit {
            negative: false,
            magnitude: 42,
        }))
    );
    assert_eq!(
        ArgValue::from_isize(-7),
        ArgValue::Literal(Lit::Int(IntLit {
            negative: true,
            magnitude: 7,
        }))
    );
    assert_eq!(
        ArgValue::from_isize(9),
        ArgValue::Literal(Lit::Int(IntLit {
            negative: false,
            magnitude: 9,
        }))
    );
}

#[test]
fn from_optional_literals() {
    assert_eq!(
        ArgValue::from_opt_str_lit(Some(StrLit {
            value: "s".to_owned(),
        })),
        str_value("s")
    );
    assert_eq!(ArgValue::from_opt_str_lit(None), ArgValue::Absent);
    assert_eq!(
        ArgValue::from_opt_byte_str_lit(Some(ByteStrLit { value: vec![9] })),
        ArgValue::Literal(Lit::ByteStr(ByteStrLit { value: vec![9] }))
    );
    assert_eq!(ArgValue::from_opt_byte_str_lit(None), ArgValue::Absent);
    assert_eq!(
        ArgValue::from_opt_bool_lit(Some(BoolLit { value: true })),
        ArgValue::Literal(Lit::Bool(BoolLit { value: true }))
    );
    assert_eq!(ArgValue::from_opt_bool_lit(None), ArgValue::Absent);
    assert_eq!(
        ArgValue::from_opt_char_lit(Some(CharLit { value: 'c' })),
        ArgValue::Literal(Lit::Char(CharLit { value: 'c' }))
    );
    assert_eq!(ArgValue::from_opt_char_lit(None), ArgValue::Absent);
    let int = IntLit {
        negative: false,
        magnitude: 5,
    };
    assert_eq!(
        ArgValue::from_opt_int_lit(Some(int)),
        ArgValue::Literal(Lit::Int(int))
    );
    assert_eq!(ArgValue::from_opt_int_lit(None), ArgValue::Absent);
    assert_eq!(
        ArgValue::from_opt_float_lit(Some(FloatLit {
            repr: "2.5".to_owned(),
        })),
        ArgValue::Literal(Lit::Float(FloatLit {
            repr: "2.5".to_owned(),
        }))
    );
    assert_eq!(ArgValue::from_opt_float_lit(None), ArgValue::Absent);
}

#[test]
fn try_into_primitives() {
    assert_eq!(str_value("abc").try_into_string(), Ok("abc".to_owned()));
    assert_eq!(
        ArgValue::Absent.try_into_string(),
        Err(Error::ArgValueMustBeLiteral)
    );
    assert_eq!(
        ArgValue::from_byte_vec(vec![4, 5]).try_into_byte_vec(),
        Ok(vec![4, 5])
    );
    assert_eq!(
        ArgValue::from_opt_bool_lit(Some(BoolLit { value: false })).try_into_bool(),
        Ok(false)
    );
    assert_eq!(ArgValue::from_char('z').try_into_char(), Ok('z'));
    assert_eq!(
        type_value("u8").try_into_char(),
        Err(Error::ArgValueMustBeLiteral)
    );
}

#[test]
fn try_into_literals() {
    assert_eq!(
        str_value("s").try_into_str_lit(),
        Ok(StrLit {
            value: "s".to_owned(),
        })
    );
    assert_eq!(
        ArgValue::from_byte_vec(vec![1]).try_into_byte_str_lit(),
        Ok(ByteStrLit { value: vec![1] })
    );
    assert_eq!(
        ArgValue::from_opt_bool_lit(Some(BoolLit { value: true })).try_into_bool_lit(),
        Ok(BoolLit { value: true })
    );
    assert_eq!(
        ArgValue::from_char('q').try_into_char_lit(),
        Ok(CharLit { value: 'q' })
    );
    assert_eq!(
        ArgValue::from_usize(3).try_into_int_lit(),
        Ok(IntLit {
            negative: false,
            magnitude: 3,
        })
    );
    assert_eq!(
        ArgValue::from_opt_float_lit(Some(FloatLit {
            repr: "1e3".to_owned(),
        }))
        .try_into_float_lit(),
        Ok(FloatLit {
            repr: "1e3".to_owned(),
        })
    );
    assert_eq!(
        str_value("s").try_into_int_lit(),
        Err(Error::ArgValueMustBeLiteral)
    );
}

#[test]
fn try_into_optional_literals() {
    assert_eq!(
        str_value("s").try_into_opt_str_lit(),
        Ok(Some(StrLit {
            value: "s".to_owned(),
        }))
    );
    assert_eq!(ArgValue::Absent.try_into_opt_str_lit(), Ok(None));
    assert_eq!(
        type_value("u8").try_into_opt_str_lit(),
        Err(Error::ArgValueMustBeLiteral)
    );
    assert_eq!(ArgValue::Absent.try_into_opt_byte_str_lit(), Ok(None));
    assert_eq!(ArgValue::Absent.try_into_opt_bool_lit(), Ok(None));
    assert_eq!(ArgValue::Absent.try_into_opt_char_lit(), Ok(None));
    assert_eq!(ArgValue::Absent.try_into_opt_int_lit(), Ok(None));
    assert_eq!(ArgValue::Absent.try_into_opt_float_lit(), Ok(None));
    assert_eq!(
        ArgValue::from_opt_int_lit(Some(IntLit {
            negative: true,
            magnitude: 2,
        }))
        .try_into_opt_int_lit(),
        Ok(Some(IntLit {
            negative: true,
            magnitude: 2,
        }))
    );
}

#[test]
fn accessors() {
    let lit = str_value("s");
    assert_eq!(
        lit.literal_value(),
        Ok(Lit::Str(StrLit {
            value: "s".to_owned(),
        }))
    );
    assert_eq!(lit.type_value(), Err(Error::ArgValueMustBeType));

    let ty = type_value("Vec<u8>");
    assert_eq!(
        ty.type_value(),
        Ok(TypeExpr {
            code: "Vec<u8>".to_owned(),
        })
    );
    assert_eq!(ty.literal_value(), Err(Error::ArgValueMustBeLiteral));

    assert_eq!(
        ArgValue::Absent.literal_value(),
        Err(Error::ArgValueMustBeLiteral)
    );
    assert_eq!(
        ArgValue::Absent.type_value(),
        Err(Error::ArgValueMustBeType)
    );
}

#[test]
fn presence() {
    assert!(ArgValue::Absent.is_none());
    assert!(!ArgValue::Absent.is_some());
    assert!(str_value("s").is_some());
    assert!(!str_value("s").is_none());
    assert!(type_value("u8").is_some());
}

#[test]
fn classes() {
    assert_eq!(
        str_value("s").value_class(),
        Some(ValueClass::Literal(LitClass::Str))
    );
    assert_eq!(
        ArgValue::from_byte_vec(vec![]).value_class(),
        Some(ValueClass::Literal(LitClass::ByteStr))
    );
    assert_eq!(
        ArgValue::from_opt_bool_lit(Some(BoolLit { value: true })).value_class(),
        Some(ValueClass::Literal(LitClass::Bool))
    );
    assert_eq!(
        ArgValue::from_char('c').value_class(),
        Some(ValueClass::Literal(LitClass::Char))
    );
    assert_eq!(
        ArgValue::from_usize(1).value_class(),
        Some(ValueClass::Literal(LitClass::Int))
    );
    assert_eq!(
        ArgValue::from_opt_float_lit(Some(FloatLit {
            repr: "0.5".to_owned(),
        }))
        .value_class(),
        Some(ValueClass::Literal(LitClass::Float))
    );
    assert_eq!(type_value("u8").value_class(), Some(ValueClass::Type));
    assert_eq!(ArgValue::Absent.value_class(), None);
}

#[test]
fn cloning_preserves_values() {
    let v = str_value("s");
    assert_eq!(v.clone(), v);
    let t = type_value("u8");
    assert_eq!(t.clone(), t);
    let b = ArgValue::from_byte_vec(vec![1, 2]);
    assert_eq!(b.clone(), b);
    assert_eq!(ArgValue::Absent.clone(), ArgValue::Absent);
}
