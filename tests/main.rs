use venus_symbol::errors::VistaError;

#[test]
fn ready() {
    println!("it works!")
}

#[test]
fn vista_error_is_a_plain_value() {
    let e = VistaError::UnknownError;
    let copy = e;
    assert_eq!(e, copy);
    assert_eq!(format!("{:?}", copy), "UnknownError");
}
