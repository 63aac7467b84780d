use coord_core::numeric::is_even;
use coord_core::numeric::is_odd;
use coord_core::numeric::safe_integer_divide;

/// Test that is_even returns true on even input
#[test]
fn lib_is_true_when_even() {
    let value = is_even(2);
    println!("valeur de is_even: {}", value);
    assert!(value);
    assert_eq!(value, true);
}

/// Test that is_even returns false on odd input
#[test]
fn lib_is_false_when_odd() {
    assert!(!is_even(1));
    assert_eq!(is_even(1), false);
}

/// Test that is_odd returns false on even input
#[test]
fn is_false_when_even() {
    assert!(!is_odd(2));
    assert_eq!(is_odd(2), false);
}

/// Test that is_odd returns true on odd input
#[test]
fn is_true_when_odd() {
    assert!(is_odd(1));
    assert_eq!(is_odd(1), true);
}

#[test]
fn safe_integer_divide_ok() -> Result<(), String> {
    safe_integer_divide(4, 2).map(|_| ())
}

#[test]
fn safe_integer_divide_nok() -> Result<(), String> {
    match safe_integer_divide(4, 0) {
        Ok(_) => Err(String::from("Expected an error")),
        Err(_) => Ok(()),
    }
}

/// Test that is_even returns true on even input
#[test]
fn more_is_true_when_even() {
    assert!(is_even(2));
    assert_eq!(is_even(2), true);
}

/// Test that is_even returns false on odd input
#[test]
fn more_is_false_when_odd() {
    assert!(!is_even(1));
    assert_eq!(is_even(1), false);
}

#[test]
fn is_even_handles_zero_and_negatives() {
    assert!(is_even(0));
    assert!(is_even(-4));
    assert!(!is_even(-3));
}

#[test]
fn safe_integer_divide_returns_exact_quotients() {
    assert_eq!(safe_integer_divide(4, 2), Ok(2));
    assert_eq!(safe_integer_divide(7, 2), Ok(3));
    assert_eq!(safe_integer_divide(-7, 2), Ok(-3));
    assert_eq!(safe_integer_divide(7, -2), Ok(-3));
    assert_eq!(safe_integer_divide(-7, -2), Ok(3));
}

#[test]
fn safe_integer_divide_names_the_offending_parameter() {
    assert_eq!(safe_integer_divide(1, 0), Err(String::from("b must not be 0")));
}
