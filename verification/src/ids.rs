use vstd::prelude::*;

verus! {

/// The lower-case hexadecimal digit of `d`, below 16.
pub open spec fn hex_digit(d: nat) -> char {
    if d < 10 {
        (48 + d) as u32 as char
    } else {
        (87 + d) as u32 as char
    }
}

/// The `k`-th of the 32 hexadecimal digits of `value`, most significant
/// first.
pub open spec fn uuid_nibble(value: u128, k: int) -> nat {
    ((value >> ((124 - 4 * k) as u128)) & 0xfu128) as nat
}

/// The character at position `i` of the hyphenated text of `value`: a
/// hyphen after the 8th, 12th, 16th and 20th digit, else the next digit.
pub open spec fn uuid_text_char(value: u128, i: int) -> char {
    if i == 8 || i == 13 || i == 18 || i == 23 {
        '-'
    } else if i < 8 {
        hex_digit(uuid_nibble(value, i))
    } else if i < 13 {
        hex_digit(uuid_nibble(value, i - 1))
    } else if i < 18 {
        hex_digit(uuid_nibble(value, i - 2))
    } else if i < 23 {
        hex_digit(uuid_nibble(value, i - 3))
    } else {
        hex_digit(uuid_nibble(value, i - 4))
    }
}

/// The hyphenated lower-case text of the UUID with these 128 bits, as the
/// `uuid` crate displays it: 32 hexadecimal digits, most significant first,
/// in groups of 8, 4, 4, 4 and 12 joined by hyphens.
pub open spec fn uuid_text(value: u128) -> Seq<char> {
    Seq::new(36, |i: int| uuid_text_char(value, i))
}

/// The UUID that `uuid::Uuid::parse_str` reads from `text`, if it reads one.
pub uninterp spec fn uuid_parse(text: Seq<char>) -> Option<u128>;

/// `uuid::Uuid::to_string` of the UUID with these bits: its hyphenated
/// lower-case text, `uuid_text`. The crate documents that `parse_str` reads
/// back every format it writes, so parsing the text gives the same bits.
#[verifier::external_body]
pub(crate) fn uuid_to_string(value: u128) -> (r: String)
    ensures
        r@ == uuid_text(value),
        uuid_parse(r@) == Some(value),
{
    uuid::Uuid::from_u128(value).to_string()
}

/// `uuid::Uuid::parse_str`; its outcome is named `uuid_parse`.
#[verifier::external_body]
fn uuid_from_str(text: &str) -> (r: Option<u128>)
    ensures
        r == uuid_parse(text@),
{
    match uuid::Uuid::parse_str(text) {
        Ok(u) => Some(u.as_u128()),
        Err(_) => None,
    }
}

/// A UUID of version 4 (random) in the RFC 4122 variant: version bits
/// `0100`, variant bits `10`.
pub open spec fn is_random_uuid(value: u128) -> bool {
    (value >> 76u128) & 0xfu128 == 4 && (value >> 62u128) & 0x3u128 == 2
}

/// `uuid::Uuid::new_v4`: a random UUID. Only its version and variant bits
/// are stated, as RFC 4122 fixes them for version 4; the rest is chance.
#[verifier::external_body]
fn uuid_new_v4() -> (r: u128)
    ensures
        is_random_uuid(r),
{
    uuid::Uuid::new_v4().as_u128()
}

/// The text was not a UUID.
#[derive(Debug, Clone, Copy, PartialEq, Eq)]
pub struct InvalidUuid;

/// Identifier of a payment: the 128 bits of its UUID.
#[derive(Debug, Clone, Copy, PartialEq, Eq, Structural)]
pub struct PaymentId(pub u128);

/// Identifier of a payout: the 128 bits of its UUID.
#[derive(Debug, Clone, Copy, PartialEq, Eq, Structural)]
pub struct PayoutId(pub u128);

/// Identifier of a refund: the 128 bits of its UUID.
#[derive(Debug, Clone, Copy, PartialEq, Eq, Structural)]
pub struct RefundId(pub u128);

/// Identifier of a user: the 128 bits of its UUID.
#[derive(Debug, Clone, Copy, PartialEq, Eq, Structural)]
pub struct UserId(pub u128);

impl PaymentId {
    /// A fresh random (version 4) identifier.
    pub fn new() -> (r: PaymentId)
        ensures
            is_random_uuid(r.0),
    {
        PaymentId(uuid_new_v4())
    }

    /// Reads an identifier from the text of a UUID.
    pub fn parse_str(text: &str) -> (r: Result<PaymentId, InvalidUuid>)
        ensures
            match uuid_parse(text@) {
                Some(v) => r == Ok::<PaymentId, InvalidUuid>(PaymentId(v)),
                None => r == Err::<PaymentId, InvalidUuid>(InvalidUuid),
            },
    {
        match uuid_from_str(text) {
            Some(v) => Ok(PaymentId(v)),
            None => Err(InvalidUuid),
        }
    }

    pub fn from_uuid(value: u128) -> (r: PaymentId)
        ensures
            r.0 == value,
    {
        PaymentId(value)
    }

    pub fn into_uuid(self) -> (r: u128)
        ensures
            r == self.0,
    {
        self.0
    }

    /// The hyphenated text of the identifier; reading it back with
    /// `parse_str` gives the same identifier.
    pub fn to_string(&self) -> (r: String)
        ensures
            r@ == uuid_text(self.0),
            uuid_parse(r@) == Some(self.0),
    {
        uuid_to_string(self.0)
    }
}

impl PayoutId {
    /// A fresh random (version 4) identifier.
    pub fn new() -> (r: PayoutId)
        ensures
            is_random_uuid(r.0),
    {
        PayoutId(uuid_new_v4())
    }

    /// Reads an identifier from the text of a UUID.
    pub fn parse_str(text: &str) -> (r: Result<PayoutId, InvalidUuid>)
        ensures
            match uuid_parse(text@) {
                Some(v) => r == Ok::<PayoutId, InvalidUuid>(PayoutId(v)),
                None => r == Err::<PayoutId, InvalidUuid>(InvalidUuid),
            },
    {
        match uuid_from_str(text) {
            Some(v) => Ok(PayoutId(v)),
            None => Err(InvalidUuid),
        }
    }

    pub fn from_uuid(value: u128) -> (r: PayoutId)
        ensures
            r.0 == value,
    {
        PayoutId(value)
    }

    pub fn into_uuid(self) -> (r: u128)
        ensures
            r == self.0,
    {
        self.0
    }

    /// The hyphenated text of the identifier; reading it back with
    /// `parse_str` gives the same identifier.
    pub fn to_string(&self) -> (r: String)
        ensures
            r@ == uuid_text(self.0),
            uuid_parse(r@) == Some(self.0),
    {
        uuid_to_string(self.0)
    }
}

impl RefundId {
    /// A fresh random (version 4) identifier.
    pub fn new() -> (r: RefundId)
        ensures
            is_random_uuid(r.0),
    {
        RefundId(uuid_new_v4())
    }

    /// Reads an identifier from the text of a UUID.
    pub fn parse_str(text: &str) -> (r: Result<RefundId, InvalidUuid>)
        ensures
            match uuid_parse(text@) {
                Some(v) => r == Ok::<RefundId, InvalidUuid>(RefundId(v)),
                None => r == Err::<RefundId, InvalidUuid>(InvalidUuid),
            },
    {
        match uuid_from_str(text) {
            Some(v) => Ok(RefundId(v)),
            None => Err(InvalidUuid),
        }
    }

    pub fn from_uuid(value: u128) -> (r: RefundId)
        ensures
            r.0 == value,
    {
        RefundId(value)
    }

    pub fn into_uuid(self) -> (r: u128)
        ensures
            r == self.0,
    {
        self.0
    }

    /// The hyphenated text of the identifier; reading it back with
    /// `parse_str` gives the same identifier.
    pub fn to_string(&self) -> (r: String)
        ensures
            r@ == uuid_text(self.0),
            uuid_parse(r@) == Some(self.0),
    {
        uuid_to_string(self.0)
    }
}

impl UserId {
    /// A fresh random (version 4) identifier.
    pub fn new() -> (r: UserId)
        ensures
            is_random_uuid(r.0),
    {
        UserId(uuid_new_v4())
    }

    /// Reads an identifier from the text of a UUID.
    pub fn parse_str(text: &str) -> (r: Result<UserId, InvalidUuid>)
        ensures
            match uuid_parse(text@) {
                Some(v) => r == Ok::<UserId, InvalidUuid>(UserId(v)),
                None => r == Err::<UserId, InvalidUuid>(InvalidUuid),
            },
    {
        match uuid_from_str(text) {
            Some(v) => Ok(UserId(v)),
            None => Err(InvalidUuid),
        }
    }

    pub fn from_uuid(value: u128) -> (r: UserId)
        ensures
            r.0 == value,
    {
        UserId(value)
    }

    pub fn into_uuid(self) -> (r: u128)
        ensures
            r == self.0,
    {
        self.0
    }

    /// The hyphenated text of the identifier; reading it back with
    /// `parse_str` gives the same identifier.
    pub fn to_string(&self) -> (r: String)
        ensures
            r@ == uuid_text(self.0),
            uuid_parse(r@) == Some(self.0),
    {
        uuid_to_string(self.0)
    }
}

} // verus!
