use jsonptr::{Error, Resolve};
use serde_json::Value;
use sifis_td::condition::{self, Condition, Operation};
use sifis_td::hazard::{self, Hazard};
use sifis_td::Sifis;

fn json_number(number: &condition::Number) -> serde_json::Number {
    if let Some(value) = number.as_u64() {
        serde_json::Number::from(value)
    } else if let Some(value) = number.as_i64() {
        serde_json::Number::from(value)
    } else {
        let bits = number.as_f64_bits().unwrap();
        serde_json::Number::from_f64(f64::from_bits(bits.0)).unwrap()
    }
}

fn same_number(a: &serde_json::Number, b: &serde_json::Number) -> bool {
    if let Some((a, b)) = a.as_u64().zip(b.as_u64()) {
        return a == b;
    }
    if let Some((a, b)) = a.as_i64().zip(b.as_i64()) {
        return a == b;
    }
    a.as_f64().unwrap() == b.as_f64().unwrap()
}

fn less_number(a: &serde_json::Number, b: &serde_json::Number) -> bool {
    if let Some((a, b)) = a.as_u64().zip(b.as_u64()) {
        return a < b;
    }
    if let Some((a, b)) = a.as_i64().zip(b.as_i64()) {
        return a < b;
    }
    a.as_f64().unwrap() < b.as_f64().unwrap()
}

fn apply_number_op(
    a: &serde_json::Number,
    b: &serde_json::Number,
    op: condition::Operation,
) -> bool {
    match op {
        Operation::Lt => less_number(a, b),
        Operation::Le => less_number(a, b) || same_number(a, b),
        Operation::Ne => !same_number(a, b),
        Operation::Gt => less_number(b, a),
        Operation::Ge => less_number(b, a) || same_number(a, b),
    }
}

fn apply_op<T>(a: &T, b: &T, op: condition::Operation) -> bool
where
    T: PartialEq + PartialOrd + ?Sized,
{
    match op {
        Operation::Lt => a < b,
        Operation::Le => a <= b,
        Operation::Ne => a != b,
        Operation::Gt => a > b,
        Operation::Ge => a >= b,
    }
}

fn evaluate_hazards(sifis: &Sifis, thing_data: &serde_json::Value) -> Vec<hazard::Risk> {
    sifis.hazards.iter().fold(Vec::new(), |mut risks, hazard| {
        let condition_satisfied = hazard.conditions.iter().any(|conditions| {
            conditions.iter().all(|condition| {
                let ptr = jsonptr::Pointer::try_from(condition.pointer.as_str()).unwrap();
                assert!(ptr.is_valid());

                match thing_data.resolve(&ptr).map(|v| (v, &condition.condition)) {
                    Ok((Value::String(s1), Condition::Value(condition::Value::String(s2)))) => {
                        s1 == s2
                    }

                    Ok((
                        Value::String(s1),
                        Condition::Expr(condition::Expr {
                            value: condition::Value::String(s2),
                            op,
                        }),
                    )) => apply_op(s1.as_str(), s2.as_ref(), *op),

                    Ok((Value::String(_), _)) => {
                        panic!("invalid comparison, {ptr} is unexpectedly a string")
                    }

                    Ok((Value::Number(n1), Condition::Value(condition::Value::Number(n2)))) => {
                        same_number(n1, &json_number(n2))
                    }

                    Ok((
                        Value::Number(n1),
                        Condition::Expr(condition::Expr {
                            value: condition::Value::Number(n2),
                            op,
                        }),
                    )) => apply_number_op(n1, &json_number(n2), *op),

                    Ok((Value::Number(_), _)) => {
                        panic!("invalid comparison, {ptr} is unexpectedly a number")
                    }

                    Ok((Value::Bool(b1), Condition::Value(condition::Value::Bool(b2)))) => {
                        b1 == b2
                    }

                    Ok((
                        Value::Bool(b1),
                        Condition::Expr(condition::Expr {
                            value: condition::Value::Bool(b2),
                            op,
                        }),
                    )) => apply_op(b1, b2, *op),

                    Ok((Value::Bool(_), _)) => {
                        panic!("invalid comparison, {ptr} is unexpectedly a boolean")
                    }

                    Ok((Value::Null | Value::Array(_) | Value::Object(_), _)) => {
                        panic!("invalid element, expected string, number or boolean")
                    }

                    Err(Error::NotFound(_) | Error::Unresolvable(_) | Error::Index(_)) => false,

                    Err(Error::MalformedPointer(_)) => unreachable!(),
                }
            })
        });

        if condition_satisfied {
            match risks.iter_mut().find(|risk| risk.id == hazard.risk.id) {
                Some(risk) => risk.level = risk.level.max(hazard.risk.level),
                None => risks.push(hazard.risk),
            }
        }

        risks
    })
}

fn data(value1: &str, value2: u32, prop2: u32, prop3: bool) -> serde_json::Value {
    let mut prop1 = serde_json::Map::new();
    prop1.insert(String::from("value1"), serde_json::Value::from(value1));
    prop1.insert(String::from("value2"), serde_json::Value::from(value2));
    let mut props = serde_json::Map::new();
    props.insert(String::from("prop1"), serde_json::Value::Object(prop1));
    props.insert(String::from("prop2"), serde_json::Value::from(prop2));
    props.insert(String::from("prop3"), serde_json::Value::from(prop3));
    let mut root = serde_json::Map::new();
    root.insert(String::from("properties"), serde_json::Value::Object(props));
    serde_json::Value::Object(root)
}

fn sample() -> Sifis {
    Sifis {
        risks: Vec::new(),
        hazards: vec![
            Hazard {
                risk: hazard::Risk {
                    id: hazard::Id::FireHazard,
                    level: 1,
                },
                conditions: vec![
                    vec![
                        hazard::Condition {
                            pointer: "/properties/prop2".try_into().unwrap(),
                            condition: Condition::Expr(condition::Expr {
                                value: 1.into(),
                                op: condition::Operation::Ge,
                            }),
                        },
                        hazard::Condition {
                            pointer: "/properties/prop3".try_into().unwrap(),
                            condition: Condition::Value(true.into()),
                        },
                    ],
                    vec![hazard::Condition {
                        pointer: "/properties/prop1/value1".try_into().unwrap(),
                        condition: Condition::Value("fire".into()),
                    }],
                ],
            },
            Hazard {
                risk: hazard::Risk {
                    id: hazard::Id::FireHazard,
                    level: 4,
                },
                conditions: vec![
                    vec![hazard::Condition {
                        pointer: "/properties/prop1/value1".try_into().unwrap(),
                        condition: Condition::Value("big fire".into()),
                    }],
                    vec![
                        hazard::Condition {
                            pointer: "/properties/prop2".try_into().unwrap(),
                            condition: Condition::Expr(condition::Expr {
                                value: 1.into(),
                                op: condition::Operation::Gt,
                            }),
                        },
                        hazard::Condition {
                            pointer: "/properties/prop3".try_into().unwrap(),
                            condition: Condition::Value(true.into()),
                        },
                    ],
                ],
            },
            Hazard {
                risk: hazard::Risk {
                    id: hazard::Id::FireHazard,
                    level: 2,
                },
                conditions: vec![vec![hazard::Condition {
                    pointer: "/properties/prop1/value1".try_into().unwrap(),
                    condition: Condition::Value("medium fire".into()),
                }]],
            },
            Hazard {
                risk: hazard::Risk {
                    id: hazard::Id::Explosion,
                    level: 1,
                },
                conditions: vec![
                    vec![
                        hazard::Condition {
                            pointer: "/properties/prop2".try_into().unwrap(),
                            condition: Condition::Expr(condition::Expr {
                                value: 8.into(),
                                op: condition::Operation::Ge,
                            }),
                        },
                        hazard::Condition {
                            pointer: "/properties/prop3".try_into().unwrap(),
                            condition: Condition::Value(true.into()),
                        },
                    ],
                    vec![hazard::Condition {
                        pointer: "/properties/prop1/value1".try_into().unwrap(),
                        condition: Condition::Value("boom".into()),
                    }],
                    vec![
                        hazard::Condition {
                            pointer: "/properties/prop1/value2".try_into().unwrap(),
                            condition: Condition::Expr(condition::Expr {
                                value: 10.into(),
                                op: condition::Operation::Ge,
                            }),
                        },
                        hazard::Condition {
                            pointer: "/properties/prop1/value2".try_into().unwrap(),
                            condition: Condition::Expr(condition::Expr {
                                value: 15.into(),
                                op: condition::Operation::Le,
                            }),
                        },
                        hazard::Condition {
                            pointer: "/properties/prop3".try_into().unwrap(),
                            condition: Condition::Value(true.into()),
                        },
                    ],
                ],
            },
        ],
    }
}

// There is no evaluator of hazards against the data of a Thing in the library.
// This one is as simple as can be, and shows that a `Sifis` value says enough
// for one to be written.
#[test]
fn resolve_hazards() {
    let sifis = sample();

    assert_eq!(evaluate_hazards(&sifis, &data("", 0, 0, false)), []);

    assert_eq!(evaluate_hazards(&sifis, &data("", 0, 0, true)), []);

    assert_eq!(
        evaluate_hazards(&sifis, &data("", 0, 1, true)),
        [hazard::Risk {
            id: hazard::Id::FireHazard,
            level: 1,
        },],
    );

    assert_eq!(
        evaluate_hazards(&sifis, &data("fire", 0, 0, false)),
        [hazard::Risk {
            id: hazard::Id::FireHazard,
            level: 1,
        },],
    );

    assert_eq!(
        evaluate_hazards(&sifis, &data("", 0, 2, true)),
        [hazard::Risk {
            id: hazard::Id::FireHazard,
            level: 4,
        },],
    );

    assert_eq!(
        evaluate_hazards(&sifis, &data("medium fire", 0, 0, false)),
        [hazard::Risk {
            id: hazard::Id::FireHazard,
            level: 2,
        },],
    );

    assert_eq!(
        evaluate_hazards(&sifis, &data("medium fire", 0, 2, true)),
        [hazard::Risk {
            id: hazard::Id::FireHazard,
            level: 4,
        },],
    );

    assert_eq!(
        evaluate_hazards(&sifis, &data("boom", 0, 2, true)),
        [
            hazard::Risk {
                id: hazard::Id::FireHazard,
                level: 4,
            },
            hazard::Risk {
                id: hazard::Id::Explosion,
                level: 1,
            },
        ],
    );

    assert_eq!(
        evaluate_hazards(&sifis, &data("", 12, 2, true)),
        [
            hazard::Risk {
                id: hazard::Id::FireHazard,
                level: 4,
            },
            hazard::Risk {
                id: hazard::Id::Explosion,
                level: 1,
            },
        ],
    );

    assert_eq!(
        evaluate_hazards(&sifis, &data("", 15, 0, true)),
        [hazard::Risk {
            id: hazard::Id::Explosion,
            level: 1,
        },],
    );

    assert_eq!(evaluate_hazards(&sifis, &data("", 16, 0, true)), []);
}

#[test]
fn a_built_value_is_evaluated_like_a_written_one() {
    let built = Sifis::builder()
        .fire_hazard(1, |cond| {
            cond.when("/properties/prop2")
                .ge(1)
                .and("/properties/prop3")
                .eq(true)
                .or(|cond| cond.when("/properties/prop1/value1").eq("fire"))
        })
        .build();
    assert_eq!(built.hazards[0], sample().hazards[0]);
    assert_eq!(
        evaluate_hazards(&built, &data("fire", 0, 0, false)),
        evaluate_hazards(&sample(), &data("fire", 0, 0, false)),
    );
    assert_eq!(evaluate_hazards(&built, &data("", 0, 0, true)), []);
}
