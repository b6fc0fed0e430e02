//! Transactions as they arrive: a kind, the client, an identifier and, for
//! deposits and withdrawals, an amount.

use crate::models::account::{RejectedTransaction, Result};
use crate::models::amount::Amount;
use vstd::prelude::*;

verus! {

/// A record named a kind of transaction that does not exist.
#[derive(Debug, Clone)]
pub struct InvalidTransactionType;

/// Identifies a client, and with it an account.
pub type ClientID = u16;

/// Identifies a transaction.
pub type TransactionID = u32;

/// One transaction of the input. `amount` is present for deposits and
/// withdrawals; disputes, resolutions and chargebacks name an earlier
/// transaction by `id` and take its amount.
#[derive(Debug, Clone, Copy, PartialEq)]
pub struct Transaction {
    pub kind: TransactionType,
    pub client_id: ClientID,
    pub id: TransactionID,
    pub amount: Option<Amount>,
}

/// The five kinds of transaction.
#[derive(Debug, Clone, Copy, PartialEq, Eq, Structural)]
pub enum TransactionType {
    Deposit,
    Withdrawal,
    Dispute,
    Resolve,
    Chargeback,
}

/// White space as `char::is_whitespace` knows it: the code points with the
/// Unicode property `White_Space`.
pub open spec fn is_whitespace(c: char) -> bool {
    let code = c as u32;
    ||| 0x09 <= code <= 0x0d
    ||| code == 0x20
    ||| code == 0x85
    ||| code == 0xa0
    ||| code == 0x1680
    ||| 0x2000 <= code <= 0x200a
    ||| code == 0x2028
    ||| code == 0x2029
    ||| code == 0x202f
    ||| code == 0x205f
    ||| code == 0x3000
}

/// A text without the white space it starts with.
pub open spec fn trimmed_start(text: Seq<char>) -> Seq<char>
    decreases text.len(),
{
    if text.len() > 0 && is_whitespace(text.first()) {
        trimmed_start(text.drop_first())
    } else {
        text
    }
}

/// A text without the white space it ends with.
pub open spec fn trimmed_end(text: Seq<char>) -> Seq<char>
    decreases text.len(),
{
    if text.len() > 0 && is_whitespace(text.last()) {
        trimmed_end(text.drop_last())
    } else {
        text
    }
}

/// A text without the white space around it.
pub open spec fn trimmed(text: Seq<char>) -> Seq<char> {
    trimmed_end(trimmed_start(text))
}

/// Whether a character is one of the digits `0` to `9`.
pub open spec fn is_digit(c: char) -> bool {
    '0' <= c <= '9'
}

/// The number that a sequence of digits writes in base ten.
pub open spec fn digits_value(digits: Seq<char>) -> nat
    decreases digits.len(),
{
    if digits.len() == 0 {
        0
    } else {
        (digits_value(digits.drop_last()) * 10 + (digits.last() as u32 - '0' as u32)) as nat
    }
}

/// Whether every character of a text is a digit.
pub open spec fn all_digits(text: Seq<char>) -> bool {
    forall|i: int| 0 <= i < text.len() ==> is_digit(#[trigger] text[i])
}

/// A text without the `+` that it may start with.
pub open spec fn unsigned_part(text: Seq<char>) -> Seq<char> {
    if text.len() > 0 && text.first() == '+' {
        text.drop_first()
    } else {
        text
    }
}

/// The number of at most `max` that a text writes: one digit or more, after
/// at most one `+`, and nothing else. `None` for any other text.
pub open spec fn unsigned_of_text(text: Seq<char>, max: nat) -> Option<nat> {
    let digits = unsigned_part(text);
    if digits.len() > 0 && all_digits(digits) && digits_value(digits) <= max {
        Some(digits_value(digits))
    } else {
        None
    }
}

/// The kind of transaction that a word names.
pub open spec fn kind_of_word(word: Seq<char>) -> Option<TransactionType> {
    if word == "deposit"@ {
        Some(TransactionType::Deposit)
    } else if word == "withdrawal"@ {
        Some(TransactionType::Withdrawal)
    } else if word == "dispute"@ {
        Some(TransactionType::Dispute)
    } else if word == "resolve"@ {
        Some(TransactionType::Resolve)
    } else if word == "chargeback"@ {
        Some(TransactionType::Chargeback)
    } else {
        None
    }
}

/// Compares two texts with `==` of `str`, which holds where they have the
/// same characters.
#[verifier::external_body]
fn same_text(a: &str, b: &str) -> (same: bool)
    ensures
        same == (a@ == b@),
{
    a == b
}

/// Removes the white space around a text with `str::trim`, which takes away
/// the leading and the trailing characters that have the Unicode property
/// `White_Space`.
#[verifier::external_body]
fn trim(text: &str) -> (rest: &str)
    ensures
        rest@ == trimmed(text@),
{
    text.trim()
}

/// A sequence of digits writes a number that is at least the number that any
/// of its beginnings writes.
proof fn lemma_digits_value_grows(digits: Seq<char>, shorter: int)
    requires
        0 <= shorter <= digits.len(),
        all_digits(digits),
    ensures
        digits_value(digits.subrange(0, shorter)) <= digits_value(digits),
    decreases digits.len() - shorter,
{
    if shorter == digits.len() {
        assert(digits.subrange(0, shorter) == digits);
    } else {
        lemma_digits_value_grows(digits.drop_last(), shorter);
        assert(digits.drop_last().subrange(0, shorter) == digits.subrange(0, shorter));
        assert(is_digit(digits.last()));
    }
}

/// Reads a number of at most `max` from a text: one digit or more after at
/// most one `+`, as `str::parse` reads an unsigned integer.
fn parse_unsigned(text: &str, max: u64) -> (number: Option<u64>)
    requires
        max <= 0xffff_ffff,
    ensures
        match number {
            Some(value) => unsigned_of_text(text@, max as nat) == Some(value as nat),
            None => unsigned_of_text(text@, max as nat) is None,
        },
{
    if !text.is_ascii() {
        proof {
            let wide = choose|i: int|
                0 <= i < text@.len() && !('\0' <= #[trigger] text@[i] <= '\u{7f}');
            let digits = unsigned_part(text@);
            if digits.len() == text@.len() {
                assert(!is_digit(digits[wide]));
            } else {
                assert(!is_digit(digits[wide - 1]));
            }
        }
        return None;
    }
    let bytes = text.as_bytes();
    proof {
        vstd::string::is_ascii_spec_bytes(text);
    }
    let len = bytes.len();
    let start: usize = if len > 0 && bytes[0] == 0x2b {
        1
    } else {
        0
    };
    let ghost digits = text@.subrange(start as int, len as int);
    assert(digits == unsigned_part(text@));
    if start == len {
        return None;
    }
    let mut value: u64 = 0;
    let mut at: usize = start;
    while at < len
        invariant
            start <= at <= len,
            len == text@.len(),
            len == bytes@.len(),
            forall|i: int| 0 <= i < len ==> bytes@[i] == #[trigger] text@[i] as u8,
            vstd::string::is_ascii(text),
            max <= 0xffff_ffff,
            digits == text@.subrange(start as int, len as int),
            digits == unsigned_part(text@),
            forall|i: int| 0 <= i < at - start ==> is_digit(#[trigger] digits[i]),
            value == digits_value(digits.subrange(0, at - start)),
            value <= max,
        decreases len - at,
    {
        let byte = bytes[at];
        let ghost c = text@[at as int];
        assert(c == digits[at - start]);
        assert(byte == c as u8 && '\0' <= c <= '\u{7f}');
        if byte < 0x30 || byte > 0x39 {
            assert(!is_digit(digits[at - start]));
            assert(!all_digits(digits));
            return None;
        }
        let ghost longer = digits.subrange(0, at - start + 1);
        assert(longer.drop_last() == digits.subrange(0, at - start));
        assert(longer.last() == c);
        value = value * 10 + (byte - 0x30) as u64;
        assert(value == digits_value(longer));
        if value > max {
            proof {
                if all_digits(digits) {
                    lemma_digits_value_grows(digits, at - start + 1);
                }
            }
            return None;
        }
        at = at + 1;
    }
    assert(digits.subrange(0, at - start) == digits);
    Some(value)
}

/// Reads a client identifier.
fn parse_client_id(text: &str) -> (id: Option<ClientID>)
    ensures
        match id {
            Some(number) => unsigned_of_text(text@, 0xffff) == Some(number as nat),
            None => unsigned_of_text(text@, 0xffff) is None,
        },
{
    match parse_unsigned(text, 0xffff) {
        Some(number) => Some(number as ClientID),
        None => None,
    }
}

/// Reads a transaction identifier.
fn parse_transaction_id(text: &str) -> (id: Option<TransactionID>)
    ensures
        match id {
            Some(number) => unsigned_of_text(text@, 0xffff_ffff) == Some(number as nat),
            None => unsigned_of_text(text@, 0xffff_ffff) is None,
        },
{
    match parse_unsigned(text, 0xffff_ffff) {
        Some(number) => Some(number as TransactionID),
        None => None,
    }
}

impl Transaction {
    /// A transaction is valid where its amount, if it has one, is.
    pub open spec fn wf(self) -> bool {
        self.amount matches Some(amount) ==> amount.wf()
    }

    /// The transaction of the given kind and amount that a record names by
    /// its second and third field, the client and the identifier, each with
    /// white space around it allowed. A record without these fields, or with
    /// a field there that is no number of its range, is invalid input.
    pub open spec fn with_ids_of(
        record: Seq<&str>,
        kind: TransactionType,
        amount: Option<Amount>,
    ) -> Result<Transaction> {
        if record.len() < 3 {
            Err(RejectedTransaction::InvalidInput)
        } else {
            match (
                unsigned_of_text(trimmed(record[1]@), 0xffff),
                unsigned_of_text(trimmed(record[2]@), 0xffff_ffff),
            ) {
                (Some(client_id), Some(id)) => Ok(
                    Transaction {
                        kind,
                        client_id: client_id as ClientID,
                        id: id as TransactionID,
                        amount,
                    },
                ),
                _ => Err(RejectedTransaction::InvalidInput),
            }
        }
    }

    /// The transaction of the given kind that a record with an amount in its
    /// fourth field stands for. A missing amount, or one that is no valid
    /// amount, is invalid input.
    pub open spec fn with_amount_of(record: Seq<&str>, kind: TransactionType) -> Result<
        Transaction,
    > {
        if record.len() < 4 {
            Err(RejectedTransaction::InvalidInput)
        } else {
            match Amount::of_text(trimmed(record[3]@)) {
                None => Err(RejectedTransaction::InvalidInput),
                Some(amount) => Transaction::with_ids_of(record, kind, Some(amount)),
            }
        }
    }

    /// The transaction that a record stands for. The first field names the
    /// kind; without it the record has an invalid type, and with an unknown
    /// word there it is invalid input. A deposit and a withdrawal take their
    /// amount from the fourth field; the other kinds have none.
    pub open spec fn of_record(record: Seq<&str>) -> Result<Transaction> {
        if record.len() == 0 {
            Err(RejectedTransaction::InvalidType)
        } else {
            match kind_of_word(record[0]@) {
                None => Err(RejectedTransaction::InvalidInput),
                Some(TransactionType::Deposit) => Transaction::with_amount_of(
                    record,
                    TransactionType::Deposit,
                ),
                Some(TransactionType::Withdrawal) => Transaction::with_amount_of(
                    record,
                    TransactionType::Withdrawal,
                ),
                Some(kind) => Transaction::with_ids_of(record, kind, None),
            }
        }
    }

    /// Reads a transaction from the fields of a record.
    pub fn from_record(record: Vec<&str>) -> (result: Result<Self>)
        ensures
            result == Transaction::of_record(record@),
            result matches Ok(transaction) ==> transaction.wf(),
    {
        if record.len() == 0 {
            return Err(RejectedTransaction::InvalidType);
        }
        let word = record[0];
        if same_text(word, "deposit") {
            Self::new_deposit(record)
        } else if same_text(word, "withdrawal") {
            Self::new_withdrawal(record)
        } else if same_text(word, "dispute") {
            Self::new_dispute(record)
        } else if same_text(word, "resolve") {
            Self::new_resolve(record)
        } else if same_text(word, "chargeback") {
            Self::new_chargeback(record)
        } else {
            Err(RejectedTransaction::InvalidInput)
        }
    }

    /// Makes the transaction of the given kind and amount for the client and
    /// under the identifier that the record names.
    pub fn basic_new(record: Vec<&str>, kind: TransactionType, amount: Option<Amount>) -> (result:
        Result<Self>)
        ensures
            result == Transaction::with_ids_of(record@, kind, amount),
    {
        if record.len() < 3 {
            return Err(RejectedTransaction::InvalidInput);
        }
        let client_id = match parse_client_id(trim(record[1])) {
            None => return Err(RejectedTransaction::InvalidInput),
            Some(number) => number,
        };
        let id = match parse_transaction_id(trim(record[2])) {
            None => return Err(RejectedTransaction::InvalidInput),
            Some(number) => number,
        };
        Ok(Self { kind, client_id, id, amount })
    }

    /// Reads a deposit from a record.
    pub fn new_deposit(record: Vec<&str>) -> (result: Result<Self>)
        ensures
            result == Transaction::with_amount_of(record@, TransactionType::Deposit),
            result matches Ok(transaction) ==> transaction.wf(),
    {
        if record.len() < 4 {
            return Err(RejectedTransaction::InvalidInput);
        }
        let amount = match Amount::parse(trim(record[3])) {
            None => return Err(RejectedTransaction::InvalidInput),
            Some(value) => Some(value),
        };
        Self::basic_new(record, TransactionType::Deposit, amount)
    }

    /// Reads a withdrawal from a record.
    pub fn new_withdrawal(record: Vec<&str>) -> (result: Result<Self>)
        ensures
            result == Transaction::with_amount_of(record@, TransactionType::Withdrawal),
            result matches Ok(transaction) ==> transaction.wf(),
    {
        if record.len() < 4 {
            return Err(RejectedTransaction::InvalidInput);
        }
        let amount = match Amount::parse(trim(record[3])) {
            None => return Err(RejectedTransaction::InvalidInput),
            Some(value) => Some(value),
        };
        Self::basic_new(record, TransactionType::Withdrawal, amount)
    }

    /// Reads a dispute from a record.
    pub fn new_dispute(record: Vec<&str>) -> (result: Result<Self>)
        ensures
            result == Transaction::with_ids_of(record@, TransactionType::Dispute, None),
    {
        Self::basic_new(record, TransactionType::Dispute, None)
    }

    /// Reads a resolution from a record.
    pub fn new_resolve(record: Vec<&str>) -> (result: Result<Self>)
        ensures
            result == Transaction::with_ids_of(record@, TransactionType::Resolve, None),
    {
        Self::basic_new(record, TransactionType::Resolve, None)
    }

    /// Reads a chargeback from a record.
    pub fn new_chargeback(record: Vec<&str>) -> (result: Result<Self>)
        ensures
            result == Transaction::with_ids_of(record@, TransactionType::Chargeback, None),
    {
        Self::basic_new(record, TransactionType::Chargeback, None)
    }
}

} // verus!
