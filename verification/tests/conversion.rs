use tempconv::convert::{convert, ctof, ftoc, ktoc, ctok};
use tempconv::handler::{convert_temperature, Outcome};
use tempconv::scale::Scale;
use tempconv::temp::Temp;

#[test]
fn lib_ctof_works() {
    // 10 C = 50 F.
    assert!(ctof(Temp::from_int(10)).eq_value(&Temp::from_int(50)));
}

#[test]
fn lib_ftoc_works() {
    // 50 F = 10 C.
    assert!(ftoc(Temp::from_int(50)).eq_value(&Temp::from_int(10)));
}

#[test]
fn main_ctof_works() {
    assert!(ctof(Temp::from_int(10)).eq_value(&Temp::from_int(50)));
}

#[test]
fn main_ftoc_works() {
    assert!(ftoc(Temp::from_int(50)).eq_value(&Temp::from_int(10)));
}

#[test]
fn lib_c_to_f_works() {
    // 10 C = 50 F, through the request handler.
    match convert_temperature(Scale::Celsius, Scale::Fahrenheit, Temp::from_int(10), "10") {
        Outcome::Converted(t) => assert!(t.eq_value(&Temp::from_int(50))),
        Outcome::Refused(_) => panic!("10 Celsius must convert"),
    }
}

#[test]
fn lib_f_to_c_works() {
    // 50 F = 10 C, through the request handler.
    match convert_temperature(Scale::Fahrenheit, Scale::Celsius, Temp::from_int(50), "50") {
        Outcome::Converted(t) => assert!(t.eq_value(&Temp::from_int(10))),
        Outcome::Refused(_) => panic!("50 Fahrenheit must convert"),
    }
}

#[test]
fn main_c_to_f_works() {
    match convert_temperature(Scale::Celsius, Scale::Fahrenheit, Temp::from_int(10), "10") {
        Outcome::Converted(t) => assert!(t.eq_value(&Temp::from_int(50))),
        Outcome::Refused(_) => panic!("10 Celsius must convert"),
    }
}

#[test]
fn main_f_to_c_works() {
    match convert_temperature(Scale::Fahrenheit, Scale::Celsius, Temp::from_int(50), "50") {
        Outcome::Converted(t) => assert!(t.eq_value(&Temp::from_int(10))),
        Outcome::Refused(_) => panic!("50 Fahrenheit must convert"),
    }
}

#[test]
fn celsius_to_kelvin_exact() {
    // 0 C = 273.15 K.
    assert!(convert(Scale::Celsius, Scale::Kelvin, Temp::from_int(0))
        .eq_value(&Temp::new(27315, 100)));
}

#[test]
fn kelvin_to_celsius_exact() {
    // 0 K = -273.15 C.
    assert!(convert(Scale::Kelvin, Scale::Celsius, Temp::from_int(0))
        .eq_value(&Temp::new(-27315, 100)));
}

#[test]
fn fahrenheit_to_kelvin_composed() {
    // 32 F = 0 C = 273.15 K.
    assert!(convert(Scale::Fahrenheit, Scale::Kelvin, Temp::from_int(32))
        .eq_value(&Temp::new(27315, 100)));
}

#[test]
fn kelvin_to_fahrenheit_composed() {
    // 273.15 K = 0 C = 32 F.
    assert!(convert(Scale::Kelvin, Scale::Fahrenheit, Temp::new(27315, 100))
        .eq_value(&Temp::from_int(32)));
}

#[test]
fn same_scale_is_identity() {
    let v = Temp::new(12345, 100);
    for s in [Scale::Kelvin, Scale::Celsius, Scale::Fahrenheit] {
        let r = convert(s, s, v);
        assert_eq!(r.num, v.num);
        assert_eq!(r.den, v.den);
    }
}

#[test]
fn round_trips_are_exact() {
    let v = Temp::new(-8731, 20);
    let pairs = [
        (Scale::Celsius, Scale::Fahrenheit),
        (Scale::Celsius, Scale::Kelvin),
        (Scale::Fahrenheit, Scale::Kelvin),
    ];
    for (a, b) in pairs {
        let there = convert(a, b, v);
        let back = convert(b, a, there);
        assert!(back.eq_value(&v));
        let there2 = convert(b, a, v);
        let back2 = convert(a, b, there2);
        assert!(back2.eq_value(&v));
    }
}

#[test]
fn single_step_formulas() {
    // -40 is the fixed point of the Celsius/Fahrenheit pair.
    assert!(ctof(Temp::from_int(-40)).eq_value(&Temp::from_int(-40)));
    assert!(ftoc(Temp::from_int(-40)).eq_value(&Temp::from_int(-40)));
    // 100 C boils: 212 F, 373.15 K.
    assert!(ctof(Temp::from_int(100)).eq_value(&Temp::from_int(212)));
    assert!(ctok(Temp::from_int(100)).eq_value(&Temp::new(37315, 100)));
    // 300 K = 26.85 C.
    assert!(ktoc(Temp::from_int(300)).eq_value(&Temp::new(2685, 100)));
}

#[test]
fn eq_value_distinguishes_values() {
    assert!(Temp::new(1, 2).eq_value(&Temp::new(2, 4)));
    assert!(!Temp::new(1, 2).eq_value(&Temp::new(1, 3)));
}

#[test]
fn in_bounds_accepts_ordinary_values() {
    assert!(Temp::from_int(10).in_bounds());
    assert!(Temp::new(-27315, 100).in_bounds());
    assert!(!Temp::new(i64::MAX, 1).in_bounds());
}
