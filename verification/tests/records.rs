use fraction::{Decimal, Sign};
use integrator::models::account::RejectedTransaction;
use integrator::models::amount::Amount;
use integrator::models::transaction::{Transaction, TransactionType};

#[allow(deprecated)]
fn amount(decimal: Decimal) -> Amount {
    let fraction = decimal.apply_ref(|f, _| f.clone());
    Amount::new(
        fraction.sign() == Some(Sign::Minus),
        *fraction.numer().unwrap(),
        *fraction.denom().unwrap(),
        decimal.get_precision(),
    )
    .unwrap()
}

#[test]
fn unit_can_parse_a_deposit_command() {
    let record = vec!["deposit", "    1", "      1", " 1.0 "];
    let tx = Transaction::from_record(record);
    match tx {
        Err(_err) => assert!(false),
        Ok(tx) => {
            let kind = tx.kind;
            assert_eq!(kind, TransactionType::Deposit);
            assert_eq!(tx.client_id, 1u16);
            assert_eq!(tx.id, 1u32);
            assert_eq!(tx.amount.unwrap(), amount(Decimal::from(1.0)));
        }
    }
}

#[test]
fn can_parse_a_withdrawal_command() {
    let record = vec!["withdrawal", "    2", "5      ", " 3.0 "];
    let tx = Transaction::from_record(record);
    match tx {
        Err(_err) => assert!(false),
        Ok(tx) => {
            let kind = tx.kind;
            assert_eq!(kind, TransactionType::Withdrawal);
            assert_eq!(tx.client_id, 2u16);
            assert_eq!(tx.id, 5u32);
            assert_eq!(tx.amount.unwrap(), amount(Decimal::from(3.0)));
        }
    }
}

#[test]
fn a_record_without_fields_has_an_invalid_type() {
    let record: Vec<&str> = Vec::new();
    assert_eq!(Transaction::from_record(record), Err(RejectedTransaction::InvalidType));
}

#[test]
fn an_unknown_kind_is_invalid_input() {
    assert_eq!(
        Transaction::from_record(vec!["transfer", "1", "1", "1.0"]),
        Err(RejectedTransaction::InvalidInput)
    );
    // The kind is matched as written: white space is not removed from it.
    assert_eq!(
        Transaction::from_record(vec![" deposit", "1", "1", "1.0"]),
        Err(RejectedTransaction::InvalidInput)
    );
}

#[test]
fn a_deposit_needs_an_amount() {
    assert_eq!(
        Transaction::from_record(vec!["deposit", "1", "1"]),
        Err(RejectedTransaction::InvalidInput)
    );
    assert_eq!(
        Transaction::from_record(vec!["deposit", "1", "1", ""]),
        Err(RejectedTransaction::InvalidInput)
    );
    assert_eq!(
        Transaction::from_record(vec!["withdrawal", "1", "1", "abc"]),
        Err(RejectedTransaction::InvalidInput)
    );
}

#[test]
fn an_amount_that_is_no_finite_decimal_is_invalid_input() {
    for text in ["NaN", "inf", "-inf", "1/3"] {
        assert_eq!(
            Transaction::from_record(vec!["deposit", "1", "1", text]),
            Err(RejectedTransaction::InvalidInput)
        );
    }
}

#[test]
fn identifiers_must_be_numbers_of_their_range() {
    for record in [
        vec!["dispute", "x", "1"],
        vec!["dispute", "1", "x"],
        vec!["dispute", "65536", "1"],
        vec!["dispute", "1", "4294967296"],
        vec!["dispute", "-1", "1"],
        vec!["dispute", "", "1"],
        vec!["dispute", "1"],
        vec!["dispute"],
    ] {
        assert_eq!(Transaction::from_record(record), Err(RejectedTransaction::InvalidInput));
    }
    let widest = Transaction::from_record(vec!["resolve", " 65535 ", "\t4294967295\n"]).unwrap();
    assert_eq!(widest.client_id, 65535u16);
    assert_eq!(widest.id, 4294967295u32);
    for record in [
        vec!["dispute", "\u{661}", "1"],
        vec!["dispute", "1\u{a0}2", "1"],
        vec!["dispute", "+", "1"],
        vec!["dispute", "++1", "1"],
        vec!["dispute", "1", "1_000"],
        vec!["dispute", "1", "0x10"],
        vec!["dispute", "1", "1.0"],
        vec!["dispute", "1", "1 2"],
    ] {
        assert_eq!(Transaction::from_record(record), Err(RejectedTransaction::InvalidInput));
    }
    let padded = Transaction::from_record(vec![
        "dispute",
        "\u{2003}00000000000000000000000000000000065535\u{3000}",
        "0000000000000000000000000000000000000000",
    ])
    .unwrap();
    assert_eq!((padded.client_id, padded.id), (65535, 0));
    let signed = Transaction::from_record(vec!["chargeback", "+7", "+007"]).unwrap();
    assert_eq!(signed.client_id, 7u16);
    assert_eq!(signed.id, 7u32);
}

#[test]
fn a_dispute_a_resolution_and_a_chargeback_carry_no_amount() {
    let dispute = Transaction::from_record(vec!["dispute", "2", "4", "9.9"]).unwrap();
    assert_eq!(dispute.kind, TransactionType::Dispute);
    assert_eq!(dispute.amount, None);
    let resolve = Transaction::from_record(vec!["resolve", "2", "4"]).unwrap();
    assert_eq!(resolve.kind, TransactionType::Resolve);
    assert_eq!(resolve.amount, None);
    let chargeback = Transaction::from_record(vec!["chargeback", "2", "4", ""]).unwrap();
    assert_eq!(chargeback.kind, TransactionType::Chargeback);
    assert_eq!(chargeback.amount, None);
}

#[test]
fn the_builders_read_what_from_record_hands_them() {
    let deposit = Transaction::new_deposit(vec!["deposit", "3", "8", "0.25"]).unwrap();
    assert_eq!(deposit.kind, TransactionType::Deposit);
    assert_eq!(deposit.amount, Amount::new(false, 1, 4, 2));
    let withdrawal = Transaction::new_withdrawal(vec!["withdrawal", "3", "9", "10"]).unwrap();
    assert_eq!(withdrawal.kind, TransactionType::Withdrawal);
    assert_eq!(withdrawal.amount, Amount::new(false, 10, 1, 0));
    assert_eq!(Transaction::new_dispute(vec!["dispute", "3", "8"]).unwrap().id, 8);
    assert_eq!(Transaction::new_resolve(vec!["resolve", "3", "8"]).unwrap().client_id, 3);
    assert_eq!(
        Transaction::new_chargeback(vec!["chargeback", "3", "8"]).unwrap().kind,
        TransactionType::Chargeback
    );
    let made = Transaction::basic_new(vec!["", "12", "34"], TransactionType::Resolve, None).unwrap();
    assert_eq!((made.client_id, made.id, made.amount), (12, 34, None));
}

#[test]
fn identifiers_are_read_as_the_standard_library_reads_them() {
    let alphabet = ['0', '1', '5', '6', '9', '+', '-', ' ', '_', 'a', '\u{661}'];
    let mut state = 7u64;
    for _ in 0..20000 {
        let mut text = String::new();
        state = state.wrapping_mul(6364136223846793005).wrapping_add(1442695040888963407);
        let length = (state >> 60) as usize % 8;
        for _ in 0..length {
            state = state.wrapping_mul(6364136223846793005).wrapping_add(1442695040888963407);
            text.push(alphabet[(state >> 33) as usize % alphabet.len()]);
        }
        let as_client = Transaction::from_record(vec!["dispute", text.as_str(), "1"]);
        assert_eq!(
            as_client.map(|transaction| transaction.client_id).ok(),
            text.trim().parse::<u16>().ok(),
            "{:?}",
            text
        );
        let as_id = Transaction::from_record(vec!["dispute", "1", text.as_str()]);
        assert_eq!(
            as_id.map(|transaction| transaction.id).ok(),
            text.trim().parse::<u32>().ok(),
            "{:?}",
            text
        );
    }
}

#[test]
fn white_space_around_a_field_is_every_character_with_that_property() {
    let mut spaces = 0;
    for code in 0..=0x10ffffu32 {
        let Some(c) = char::from_u32(code) else { continue };
        let listed = matches!(
            code,
            0x09..=0x0d
                | 0x20
                | 0x85
                | 0xa0
                | 0x1680
                | 0x2000..=0x200a
                | 0x2028
                | 0x2029
                | 0x202f
                | 0x205f
                | 0x3000
        );
        assert_eq!(c.is_whitespace(), listed, "{:x}", code);
        if listed {
            spaces += 1;
            let field = format!("{}7{}", c, c);
            let read = Transaction::from_record(vec!["dispute", field.as_str(), "1"]).unwrap();
            assert_eq!(read.client_id, 7);
        }
    }
    assert_eq!(spaces, 25);
    let inner = Transaction::from_record(vec!["dispute", "7\u{200b}", "1"]);
    assert_eq!(inner, Err(RejectedTransaction::InvalidInput));
}
