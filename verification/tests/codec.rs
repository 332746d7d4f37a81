use lottie_model::anim::{decode_animated_num, encode_animated_num};
use lottie_model::doc::{decode_model, encode_model};
use lottie_model::model::{
    DecodeError, LayerContent, Rgb, Rgba, Shape, ShapeDirection, Transform,
};
use lottie_model::prim::{decode_bool_int, encode_bool_int};
use lottie_model::shapes::decode_shape;
use lottie_model::value::{Entry, Key, Value};

fn obj(entries: Vec<(Key, Value)>) -> Value {
    let mut fields = Vec::new();
    for (key, val) in entries {
        fields.push(Entry { key, val });
    }
    Value::Obj(fields)
}

fn anim_const_num(v: i64) -> Value {
    obj(vec![(Key::A, Value::Num(0)), (Key::K, Value::Num(v))])
}

fn anim_const_vec2(x: i64, y: i64) -> Value {
    obj(vec![
        (Key::A, Value::Num(0)),
        (Key::K, Value::Arr(vec![Value::Num(x), Value::Num(y)])),
    ])
}

#[test]
fn non_animated_normalization() {
    let v = anim_const_num(5000);
    let a = decode_animated_num(&v).unwrap();
    assert!(!a.animated);
    assert_eq!(a.keyframes.len(), 1);
    assert_eq!(a.keyframes[0].start_value, 5000);
    assert_eq!(a.keyframes[0].end_value, 5000);
    assert_eq!(a.keyframes[0].start_frame, 0);
    assert_eq!(a.keyframes[0].end_frame, 0);
}

#[test]
fn keyframe_backfill() {
    let kf = |s: i64, t: i64| obj(vec![(Key::S, Value::Num(s)), (Key::T, Value::Num(t))]);
    let v = obj(vec![
        (Key::A, Value::Num(1000)),
        (Key::K, Value::Arr(vec![kf(0, 0), kf(10000, 5000), kf(20000, 10000)])),
    ]);
    let a = decode_animated_num(&v).unwrap();
    assert!(a.animated);
    assert_eq!(a.keyframes.len(), 3);
    assert_eq!(a.keyframes[0].start_value, 0);
    assert_eq!(a.keyframes[0].end_value, 10000);
    assert_eq!(a.keyframes[0].start_frame, 0);
    assert_eq!(a.keyframes[0].end_frame, 5000);
    assert_eq!(a.keyframes[1].start_value, 10000);
    assert_eq!(a.keyframes[1].end_value, 20000);
    assert_eq!(a.keyframes[1].start_frame, 5000);
    assert_eq!(a.keyframes[1].end_frame, 10000);
    assert_eq!(a.keyframes[2].start_value, 20000);
    assert_eq!(a.keyframes[2].end_value, 20000);
    assert_eq!(a.keyframes[2].start_frame, 10000);
    assert_eq!(a.keyframes[2].end_frame, 0);
}

#[test]
fn empty_keyframe_list_is_malformed() {
    let v = obj(vec![(Key::A, Value::Num(1000)), (Key::K, Value::Arr(vec![]))]);
    match decode_animated_num(&v) {
        Err(e) => assert_eq!(e, DecodeError::MalformedKeyframes),
        Ok(_) => panic!(),
    }
}

#[test]
fn bool_coercion() {
    assert_eq!(decode_bool_int(&Value::Num(0)), Ok(false));
    assert_eq!(decode_bool_int(&Value::Num(1000)), Ok(true));
    assert_eq!(decode_bool_int(&Value::Num(7000)), Ok(true));
    assert_eq!(decode_bool_int(&Value::Num(-3)), Ok(true));
    match encode_bool_int(false) {
        Value::Num(n) => assert_eq!(n, 0),
        _ => panic!(),
    }
    match encode_bool_int(true) {
        Value::Num(n) => assert_eq!(n, 1000),
        _ => panic!(),
    }
}

fn shape_obj(tag: &str, mut rest: Vec<(Key, Value)>) -> Vec<Entry> {
    let mut entries = vec![(Key::Ty, Value::Str(tag.to_string()))];
    entries.append(&mut rest);
    let mut fields = Vec::new();
    for (key, val) in entries {
        fields.push(Entry { key, val });
    }
    fields
}

#[test]
fn shape_tag_closure() {
    let anum = || anim_const_num(1000);
    let avec = || anim_const_vec2(0, 0);
    let argb = || {
        obj(vec![
            (Key::A, Value::Num(0)),
            (
                Key::K,
                Value::Arr(vec![Value::Num(500), Value::Num(500), Value::Num(500)]),
            ),
        ])
    };
    let colors = || {
        obj(vec![
            (Key::A, Value::Num(0)),
            (Key::K, Value::Arr(vec![Value::Str("#ff0000".to_string())])),
        ])
    };
    let bez = || {
        obj(vec![
            (Key::C, Value::Bool(true)),
            (Key::V, Value::Arr(vec![])),
            (Key::I, Value::Arr(vec![])),
            (Key::O, Value::Arr(vec![])),
        ])
    };
    let cases: Vec<(&str, Vec<(Key, Value)>, fn(&Shape) -> bool)> = vec![
        ("rc", vec![(Key::P, avec()), (Key::S, avec()), (Key::R, anum())], |s| {
            matches!(s, Shape::Rectangle(_))
        }),
        ("el", vec![(Key::P, avec()), (Key::S, avec())], |s| matches!(s, Shape::Ellipse(_))),
        (
            "sr",
            vec![
                (Key::P, avec()),
                (Key::Or, anum()),
                (Key::Os, anum()),
                (Key::Ir, anum()),
                (Key::Is, anum()),
                (Key::R, anum()),
                (Key::Pt, anum()),
                (Key::Sy, Value::Num(1000)),
            ],
            |s| matches!(s, Shape::PolyStar(_)),
        ),
        ("sh", vec![(Key::Ks, obj(vec![(Key::A, Value::Num(0)), (Key::K, bez())]))], |s| {
            matches!(s, Shape::Path { .. })
        }),
        ("fl", vec![(Key::O, anum()), (Key::C, argb())], |s| matches!(s, Shape::Fill(_))),
        (
            "st",
            vec![
                (Key::Lc, Value::Num(1000)),
                (Key::Lj, Value::Num(1000)),
                (Key::Ml, Value::Num(4000)),
                (Key::O, anum()),
                (Key::W, anum()),
                (Key::C, argb()),
            ],
            |s| matches!(s, Shape::Stroke(_)),
        ),
        (
            "gf",
            vec![
                (Key::O, anum()),
                (Key::R, Value::Num(1000)),
                (Key::S, avec()),
                (Key::E, avec()),
                (Key::T, Value::Num(1000)),
                (Key::G, colors()),
            ],
            |s| matches!(s, Shape::GradientFill { .. }),
        ),
        (
            "gs",
            vec![
                (Key::Lc, Value::Num(1000)),
                (Key::Lj, Value::Num(1000)),
                (Key::Ml, Value::Num(4000)),
                (Key::O, anum()),
                (Key::W, anum()),
                (Key::S, avec()),
                (Key::E, avec()),
                (Key::T, Value::Num(1000)),
                (Key::G, colors()),
            ],
            |s| matches!(s, Shape::GradientStroke { .. }),
        ),
        ("gr", vec![(Key::It, Value::Arr(vec![]))], |s| matches!(s, Shape::Group { .. })),
        ("tr", vec![], |s| matches!(s, Shape::Transform(_))),
        (
            "rp",
            vec![
                (Key::C, anum()),
                (Key::O, anum()),
                (Key::M, Value::Num(1000)),
                (
                    Key::Tr,
                    obj(vec![
                        (Key::P, avec()),
                        (Key::S, avec()),
                        (Key::R, anum()),
                        (Key::So, anum()),
                        (Key::Eo, anum()),
                    ]),
                ),
            ],
            |s| matches!(s, Shape::Repeater { .. }),
        ),
        (
            "tm",
            vec![
                (Key::S, anum()),
                (Key::E, anum()),
                (Key::O, anum()),
                (Key::M, Value::Num(1000)),
            ],
            |s| matches!(s, Shape::Trim { .. }),
        ),
        ("rd", vec![(Key::R, anum())], |s| matches!(s, Shape::RoundedCorners { .. })),
        ("pb", vec![(Key::A, anum())], |s| matches!(s, Shape::PuckerBloat { .. })),
        ("tw", vec![(Key::A, anum()), (Key::C, avec())], |s| matches!(s, Shape::Twist { .. })),
        ("mm", vec![(Key::Mm, Value::Num(5000))], |s| matches!(s, Shape::Merge { .. })),
        (
            "op",
            vec![(Key::A, anum()), (Key::Lj, Value::Num(1000)), (Key::Ml, Value::Num(4000))],
            |s| matches!(s, Shape::OffsetPath { .. }),
        ),
        (
            "zz",
            vec![(Key::R, anum()), (Key::S, anum()), (Key::Pt, anum())],
            |s| matches!(s, Shape::ZigZag { .. }),
        ),
    ];
    for (tag, rest, check) in cases {
        let fields = shape_obj(tag, rest);
        let shape = decode_shape(&fields).unwrap_or_else(|e| panic!("{tag}: {e:?}"));
        assert!(check(&shape), "wrong variant for {tag}");
    }
    let bad = shape_obj("xx", vec![]);
    assert_eq!(
        match decode_shape(&bad) {
            Err(e) => e,
            Ok(_) => panic!(),
        },
        DecodeError::UnknownDiscriminant
    );
}

fn minimal_model(layers: Vec<Value>) -> Value {
    obj(vec![
        (Key::Ip, Value::Num(0)),
        (Key::Op, Value::Num(30000)),
        (Key::Fr, Value::Num(30000)),
        (Key::W, Value::Num(100000)),
        (Key::H, Value::Num(100000)),
        (Key::Layers, Value::Arr(layers)),
    ])
}

#[test]
fn duration_scenario() {
    let m = decode_model(&minimal_model(vec![])).unwrap();
    assert_eq!(m.width, 100);
    assert_eq!(m.height, 100);
    assert_eq!(m.duration(), Some(1000));
}

#[test]
fn duration_zero_rate_fails_fast() {
    let mut m = decode_model(&minimal_model(vec![])).unwrap();
    m.frame_rate = 0;
    assert_eq!(m.duration(), None);
}

#[test]
fn rectangle_scenario() {
    let fields = shape_obj(
        "rc",
        vec![
            (Key::D, Value::Num(1000)),
            (Key::P, anim_const_vec2(0, 0)),
            (Key::S, anim_const_vec2(10000, 10000)),
            (Key::R, anim_const_num(0)),
        ],
    );
    match decode_shape(&fields).unwrap() {
        Shape::Rectangle(r) => {
            assert_eq!(r.direction, ShapeDirection::Clockwise);
            assert!(!r.position.animated);
            assert!(!r.size.animated);
            assert_eq!(r.size.keyframes[0].start_value.x, 10000);
            assert_eq!(r.size.keyframes[0].start_value.y, 10000);
        },
        _ => panic!("expected a rectangle"),
    }
}

#[test]
fn model_round_trip() {
    let solid_layer = obj(vec![
        (Key::Ddd, Value::Num(0)),
        (Key::Ip, Value::Num(0)),
        (Key::Op, Value::Num(30000)),
        (Key::St, Value::Num(0)),
        (Key::Sc, Value::Str("#102030".to_string())),
        (Key::Sw, Value::Num(50000)),
        (Key::Sh, Value::Num(60000)),
    ]);
    let v = minimal_model(vec![solid_layer]);
    let m = decode_model(&v).unwrap();
    let encoded = encode_model(&m);
    let m2 = decode_model(&encoded).unwrap();
    assert_eq!(m2.start_frame, m.start_frame);
    assert_eq!(m2.end_frame, m.end_frame);
    assert_eq!(m2.frame_rate, m.frame_rate);
    assert_eq!(m2.width, m.width);
    assert_eq!(m2.height, m.height);
    assert_eq!(m2.layers.len(), 1);
    match (&m.layers[0].content, &m2.layers[0].content) {
        (
            LayerContent::SolidColor { color: c1, height: h1, width: w1 },
            LayerContent::SolidColor { color: c2, height: h2, width: w2 },
        ) => {
            assert_eq!(c1, c2);
            assert_eq!(h1, h2);
            assert_eq!(w1, w2);
            assert_eq!(*c2, Rgba { r: 0x10, g: 0x20, b: 0x30, a: 255 });
        },
        _ => panic!("expected solid color content"),
    }
}

#[test]
fn animated_round_trip() {
    let kf = |s: i64, t: i64| obj(vec![(Key::S, Value::Num(s)), (Key::T, Value::Num(t))]);
    let v = obj(vec![
        (Key::A, Value::Num(1000)),
        (Key::K, Value::Arr(vec![kf(0, 0), kf(10000, 5000)])),
    ]);
    let a = decode_animated_num(&v).unwrap();
    let back = encode_animated_num(&a);
    let a2 = decode_animated_num(&back).unwrap();
    assert_eq!(a2.animated, a.animated);
    assert_eq!(a2.keyframes.len(), a.keyframes.len());
    for i in 0..a.keyframes.len() {
        assert_eq!(a2.keyframes[i].start_value, a.keyframes[i].start_value);
        assert_eq!(a2.keyframes[i].end_value, a.keyframes[i].end_value);
        assert_eq!(a2.keyframes[i].start_frame, a.keyframes[i].start_frame);
        assert_eq!(a2.keyframes[i].end_frame, a.keyframes[i].end_frame);
    }
}

#[test]
fn hex_colors() {
    let c = Rgba::from_str("#11a0FF").unwrap();
    assert_eq!(c, Rgba { r: 0x11, g: 0xa0, b: 0xff, a: 255 });
    assert_eq!(c.to_string(), "#11a0ff");
    let c2 = Rgba::from_str("#01020304").unwrap();
    assert_eq!(c2, Rgba { r: 1, g: 2, b: 3, a: 4 });
    assert_eq!(c2.to_string(), "#01020304");
    assert_eq!(Rgba::from_str("11a0ff"), Err(DecodeError::Schema));
    assert_eq!(Rgba::from_str("#11a0fg"), Err(DecodeError::Schema));
    assert_eq!(Rgba::from_str("#1234"), Err(DecodeError::Schema));
}

#[test]
fn color_construction() {
    let c = Rgb::new_u8(1, 2, 3);
    assert_eq!(c, Rgb { r: 1, g: 2, b: 3 });
    let d = Rgb::new_milli(500, 1000, 0);
    assert_eq!(d, Rgb { r: 127, g: 255, b: 0 });
    let e = Rgb::new_milli(-5, 2000, 999);
    assert_eq!(e, Rgb { r: 0, g: 255, b: 254 });
}

#[test]
fn missing_required_field_is_schema_error() {
    let v = obj(vec![(Key::Ip, Value::Num(0))]);
    assert_eq!(
        match decode_model(&v) {
            Err(e) => e,
            Ok(_) => panic!(),
        },
        DecodeError::Schema
    );
}

#[test]
fn invalid_enum_code_is_unknown_discriminant() {
    let fields = shape_obj(
        "rc",
        vec![
            (Key::D, Value::Num(9000)),
            (Key::P, anim_const_vec2(0, 0)),
            (Key::S, anim_const_vec2(1, 1)),
            (Key::R, anim_const_num(0)),
        ],
    );
    assert_eq!(
        match decode_shape(&fields) {
            Err(e) => e,
            Ok(_) => panic!(),
        },
        DecodeError::UnknownDiscriminant
    );
}

#[test]
fn transform_defaults() {
    let t = Transform::default();
    assert!(!t.scale.animated);
    assert_eq!(t.scale.keyframes[0].start_value.x, 100000);
    assert_eq!(t.opacity.keyframes[0].start_value, 100000);
    assert_eq!(t.rotation.keyframes[0].start_value, 0);
    assert!(!t.is_identity());
}
