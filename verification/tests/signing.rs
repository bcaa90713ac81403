use transact::signing::sawtooth::{public_key_from_context, signature_from_context};
use transact::signing::Error;

fn message(res: Result<Vec<u8>, Error>) -> String {
    match res {
        Err(Error::SigningError(msg)) => msg,
        Ok(_) => panic!("expected an error"),
    }
}

#[test]
fn keeps_the_derived_public_key() {
    let key = vec![2u8, 0xab, 0xcd];
    assert_eq!(public_key_from_context(Ok(key.clone())).ok().unwrap(), key);
}

#[test]
fn reports_a_key_that_cannot_be_derived() {
    assert_eq!(
        message(public_key_from_context(Err("bad key".to_string()))),
        "Unable to extract public key: bad key"
    );
}

#[test]
fn decodes_the_hex_signature() {
    let bytes = signature_from_context(Ok("00ff0a7Fc3".to_string())).ok().unwrap();
    assert_eq!(bytes, vec![0x00, 0xff, 0x0a, 0x7f, 0xc3]);
    assert_eq!(signature_from_context(Ok(String::new())).ok().unwrap(), Vec::<u8>::new());
}

#[test]
fn reports_a_failed_signing() {
    assert_eq!(
        message(signature_from_context(Err("no context".to_string()))),
        "Failed to sign message: no context"
    );
}

#[test]
fn reports_an_odd_length_signature() {
    assert_eq!(
        message(signature_from_context(Ok("abc".to_string()))),
        "Unable to parse sawtooth signature abc into bytes: Odd number of digits"
    );
}

#[test]
fn reports_the_first_invalid_digit() {
    assert_eq!(
        message(signature_from_context(Ok("0g1z".to_string()))),
        "Unable to parse sawtooth signature 0g1z into bytes: Invalid character 'g' at position 1"
    );
}
