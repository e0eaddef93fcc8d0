//! The enumerations of the domain and their text names, as stored in the
//! database and exchanged over the API.

use vstd::prelude::*;
use crate::text::str_eq;

verus! {

/// Role of an account.
#[allow(non_camel_case_types)]
#[derive(Debug, Clone, Copy, PartialEq, Eq, Structural)]
pub enum UserRole {
    USER,
    ADMIN,
}

impl UserRole {
    /// The text name of the variant.
    pub open spec fn name(self) -> Seq<char> {
        match self {
            UserRole::USER => "USER"@,
            UserRole::ADMIN => "ADMIN"@,
        }
    }

    /// The variant named by `s`, if any.
    pub open spec fn from_name(s: Seq<char>) -> Option<Self> {
        if s == "USER"@ {
            Some(UserRole::USER)
        } else if s == "ADMIN"@ {
            Some(UserRole::ADMIN)
        } else {
            None
        }
    }

    /// The text name of the variant.
    pub fn as_str(&self) -> (res: &'static str)
        ensures
            res@ == self.name(),
    {
        match self {
            UserRole::USER => "USER",
            UserRole::ADMIN => "ADMIN",
        }
    }

    /// The variant whose text name is `s`, if there is one.
    pub fn parse(s: &str) -> (res: Option<Self>)
        ensures
            res == Self::from_name(s@),
    {
        if str_eq(s, "USER") {
            Some(UserRole::USER)
        } else if str_eq(s, "ADMIN") {
            Some(UserRole::ADMIN)
        } else {
            None
        }
    }
}

/// Parsing the name of a user role gives back that value.
pub proof fn lemma_user_role_name_round_trip(v: UserRole)
    ensures
        UserRole::from_name(v.name()) == Some(v),
{
    reveal_strlit("USER");
    reveal_strlit("ADMIN");
    match v {
        UserRole::USER => {
        },
        UserRole::ADMIN => {
            assert("USER"@.len() != "ADMIN"@.len());
        },
    }
}

/// A text that parses as a user role is that value's name.
pub proof fn lemma_user_role_parsed_name(s: Seq<char>)
    ensures
        UserRole::from_name(s) matches Some(v) ==> v.name() == s,
{
}

/// Identity provider that a user signs in with.
#[allow(non_camel_case_types)]
#[derive(Debug, Clone, Copy, PartialEq, Eq, Structural)]
pub enum SocialProvider {
    NAVER,
    KAKAO,
}

impl SocialProvider {
    /// The text name of the variant.
    pub open spec fn name(self) -> Seq<char> {
        match self {
            SocialProvider::NAVER => "NAVER"@,
            SocialProvider::KAKAO => "KAKAO"@,
        }
    }

    /// The variant named by `s`, if any.
    pub open spec fn from_name(s: Seq<char>) -> Option<Self> {
        if s == "NAVER"@ {
            Some(SocialProvider::NAVER)
        } else if s == "KAKAO"@ {
            Some(SocialProvider::KAKAO)
        } else {
            None
        }
    }

    /// The text name of the variant.
    pub fn as_str(&self) -> (res: &'static str)
        ensures
            res@ == self.name(),
    {
        match self {
            SocialProvider::NAVER => "NAVER",
            SocialProvider::KAKAO => "KAKAO",
        }
    }

    /// The variant whose text name is `s`, if there is one.
    pub fn parse(s: &str) -> (res: Option<Self>)
        ensures
            res == Self::from_name(s@),
    {
        if str_eq(s, "NAVER") {
            Some(SocialProvider::NAVER)
        } else if str_eq(s, "KAKAO") {
            Some(SocialProvider::KAKAO)
        } else {
            None
        }
    }
}

/// Parsing the name of a social provider gives back that value.
pub proof fn lemma_social_provider_name_round_trip(v: SocialProvider)
    ensures
        SocialProvider::from_name(v.name()) == Some(v),
{
    reveal_strlit("NAVER");
    reveal_strlit("KAKAO");
    match v {
        SocialProvider::NAVER => {
        },
        SocialProvider::KAKAO => {
            assert("NAVER"@[0] != "KAKAO"@[0]);
        },
    }
}

/// A text that parses as a social provider is that value's name.
pub proof fn lemma_social_provider_parsed_name(s: Seq<char>)
    ensures
        SocialProvider::from_name(s) matches Some(v) ==> v.name() == s,
{
}

/// Payment gateway that handles an instant payment.
#[allow(non_camel_case_types)]
#[derive(Debug, Clone, Copy, PartialEq, Eq, Structural)]
pub enum PaymentProvider {
    NAVER_PAY,
    KAKAO_PAY,
}

impl PaymentProvider {
    /// The text name of the variant.
    pub open spec fn name(self) -> Seq<char> {
        match self {
            PaymentProvider::NAVER_PAY => "NAVER_PAY"@,
            PaymentProvider::KAKAO_PAY => "KAKAO_PAY"@,
        }
    }

    /// The variant named by `s`, if any.
    pub open spec fn from_name(s: Seq<char>) -> Option<Self> {
        if s == "NAVER_PAY"@ {
            Some(PaymentProvider::NAVER_PAY)
        } else if s == "KAKAO_PAY"@ {
            Some(PaymentProvider::KAKAO_PAY)
        } else {
            None
        }
    }

    /// The text name of the variant.
    pub fn as_str(&self) -> (res: &'static str)
        ensures
            res@ == self.name(),
    {
        match self {
            PaymentProvider::NAVER_PAY => "NAVER_PAY",
            PaymentProvider::KAKAO_PAY => "KAKAO_PAY",
        }
    }

    /// The variant whose text name is `s`, if there is one.
    pub fn parse(s: &str) -> (res: Option<Self>)
        ensures
            res == Self::from_name(s@),
    {
        if str_eq(s, "NAVER_PAY") {
            Some(PaymentProvider::NAVER_PAY)
        } else if str_eq(s, "KAKAO_PAY") {
            Some(PaymentProvider::KAKAO_PAY)
        } else {
            None
        }
    }
}

/// Parsing the name of a payment provider gives back that value.
pub proof fn lemma_payment_provider_name_round_trip(v: PaymentProvider)
    ensures
        PaymentProvider::from_name(v.name()) == Some(v),
{
    reveal_strlit("NAVER_PAY");
    reveal_strlit("KAKAO_PAY");
    match v {
        PaymentProvider::NAVER_PAY => {
        },
        PaymentProvider::KAKAO_PAY => {
            assert("NAVER_PAY"@[0] != "KAKAO_PAY"@[0]);
        },
    }
}

/// A text that parses as a payment provider is that value's name.
pub proof fn lemma_payment_provider_parsed_name(s: Seq<char>)
    ensures
        PaymentProvider::from_name(s) matches Some(v) ==> v.name() == s,
{
}

/// When a booking is paid: at once online, or at the shop.
#[allow(non_camel_case_types)]
#[derive(Debug, Clone, Copy, PartialEq, Eq, Structural)]
pub enum PaymentType {
    INSTANT,
    ONSITE,
}

impl PaymentType {
    /// The text name of the variant.
    pub open spec fn name(self) -> Seq<char> {
        match self {
            PaymentType::INSTANT => "INSTANT"@,
            PaymentType::ONSITE => "ONSITE"@,
        }
    }

    /// The variant named by `s`, if any.
    pub open spec fn from_name(s: Seq<char>) -> Option<Self> {
        if s == "INSTANT"@ {
            Some(PaymentType::INSTANT)
        } else if s == "ONSITE"@ {
            Some(PaymentType::ONSITE)
        } else {
            None
        }
    }

    /// The text name of the variant.
    pub fn as_str(&self) -> (res: &'static str)
        ensures
            res@ == self.name(),
    {
        match self {
            PaymentType::INSTANT => "INSTANT",
            PaymentType::ONSITE => "ONSITE",
        }
    }

    /// The variant whose text name is `s`, if there is one.
    pub fn parse(s: &str) -> (res: Option<Self>)
        ensures
            res == Self::from_name(s@),
    {
        if str_eq(s, "INSTANT") {
            Some(PaymentType::INSTANT)
        } else if str_eq(s, "ONSITE") {
            Some(PaymentType::ONSITE)
        } else {
            None
        }
    }
}

/// Parsing the name of a payment type gives back that value.
pub proof fn lemma_payment_type_name_round_trip(v: PaymentType)
    ensures
        PaymentType::from_name(v.name()) == Some(v),
{
    reveal_strlit("INSTANT");
    reveal_strlit("ONSITE");
    match v {
        PaymentType::INSTANT => {
        },
        PaymentType::ONSITE => {
            assert("INSTANT"@.len() != "ONSITE"@.len());
        },
    }
}

/// A text that parses as a payment type is that value's name.
pub proof fn lemma_payment_type_parsed_name(s: Seq<char>)
    ensures
        PaymentType::from_name(s) matches Some(v) ==> v.name() == s,
{
}

/// Life-cycle state of a booking.
#[allow(non_camel_case_types)]
#[derive(Debug, Clone, Copy, PartialEq, Eq, Structural)]
pub enum BookingStatus {
    PENDING,
    CONFIRMED,
    COMPLETED,
    CANCELLED_BY_USER,
    CANCELLED_BY_ADMIN,
}

impl BookingStatus {
    /// The text name of the variant.
    pub open spec fn name(self) -> Seq<char> {
        match self {
            BookingStatus::PENDING => "PENDING"@,
            BookingStatus::CONFIRMED => "CONFIRMED"@,
            BookingStatus::COMPLETED => "COMPLETED"@,
            BookingStatus::CANCELLED_BY_USER => "CANCELLED_BY_USER"@,
            BookingStatus::CANCELLED_BY_ADMIN => "CANCELLED_BY_ADMIN"@,
        }
    }

    /// The variant named by `s`, if any.
    pub open spec fn from_name(s: Seq<char>) -> Option<Self> {
        if s == "PENDING"@ {
            Some(BookingStatus::PENDING)
        } else if s == "CONFIRMED"@ {
            Some(BookingStatus::CONFIRMED)
        } else if s == "COMPLETED"@ {
            Some(BookingStatus::COMPLETED)
        } else if s == "CANCELLED_BY_USER"@ {
            Some(BookingStatus::CANCELLED_BY_USER)
        } else if s == "CANCELLED_BY_ADMIN"@ {
            Some(BookingStatus::CANCELLED_BY_ADMIN)
        } else {
            None
        }
    }

    /// The text name of the variant.
    pub fn as_str(&self) -> (res: &'static str)
        ensures
            res@ == self.name(),
    {
        match self {
            BookingStatus::PENDING => "PENDING",
            BookingStatus::CONFIRMED => "CONFIRMED",
            BookingStatus::COMPLETED => "COMPLETED",
            BookingStatus::CANCELLED_BY_USER => "CANCELLED_BY_USER",
            BookingStatus::CANCELLED_BY_ADMIN => "CANCELLED_BY_ADMIN",
        }
    }

    /// The variant whose text name is `s`, if there is one.
    pub fn parse(s: &str) -> (res: Option<Self>)
        ensures
            res == Self::from_name(s@),
    {
        if str_eq(s, "PENDING") {
            Some(BookingStatus::PENDING)
        } else if str_eq(s, "CONFIRMED") {
            Some(BookingStatus::CONFIRMED)
        } else if str_eq(s, "COMPLETED") {
            Some(BookingStatus::COMPLETED)
        } else if str_eq(s, "CANCELLED_BY_USER") {
            Some(BookingStatus::CANCELLED_BY_USER)
        } else if str_eq(s, "CANCELLED_BY_ADMIN") {
            Some(BookingStatus::CANCELLED_BY_ADMIN)
        } else {
            None
        }
    }
}

/// Parsing the name of a booking status gives back that value.
pub proof fn lemma_booking_status_name_round_trip(v: BookingStatus)
    ensures
        BookingStatus::from_name(v.name()) == Some(v),
{
    reveal_strlit("PENDING");
    reveal_strlit("CONFIRMED");
    reveal_strlit("COMPLETED");
    reveal_strlit("CANCELLED_BY_USER");
    reveal_strlit("CANCELLED_BY_ADMIN");
    match v {
        BookingStatus::PENDING => {
        },
        BookingStatus::CONFIRMED => {
            assert("PENDING"@.len() != "CONFIRMED"@.len());
        },
        BookingStatus::COMPLETED => {
            assert("PENDING"@.len() != "COMPLETED"@.len());
            assert("CONFIRMED"@[2] != "COMPLETED"@[2]);
        },
        BookingStatus::CANCELLED_BY_USER => {
            assert("PENDING"@.len() != "CANCELLED_BY_USER"@.len());
            assert("CONFIRMED"@.len() != "CANCELLED_BY_USER"@.len());
            assert("COMPLETED"@.len() != "CANCELLED_BY_USER"@.len());
        },
        BookingStatus::CANCELLED_BY_ADMIN => {
            assert("PENDING"@.len() != "CANCELLED_BY_ADMIN"@.len());
            assert("CONFIRMED"@.len() != "CANCELLED_BY_ADMIN"@.len());
            assert("COMPLETED"@.len() != "CANCELLED_BY_ADMIN"@.len());
            assert("CANCELLED_BY_USER"@.len() != "CANCELLED_BY_ADMIN"@.len());
        },
    }
}

/// A text that parses as a booking status is that value's name.
pub proof fn lemma_booking_status_parsed_name(s: Seq<char>)
    ensures
        BookingStatus::from_name(s) matches Some(v) ==> v.name() == s,
{
}

/// Life-cycle state of a payment.
#[allow(non_camel_case_types)]
#[derive(Debug, Clone, Copy, PartialEq, Eq, Structural)]
pub enum PaymentStatus {
    READY,
    PAID,
    CANCELLED,
    PARTIAL_CANCELLED,
}

impl PaymentStatus {
    /// The text name of the variant.
    pub open spec fn name(self) -> Seq<char> {
        match self {
            PaymentStatus::READY => "READY"@,
            PaymentStatus::PAID => "PAID"@,
            PaymentStatus::CANCELLED => "CANCELLED"@,
            PaymentStatus::PARTIAL_CANCELLED => "PARTIAL_CANCELLED"@,
        }
    }

    /// The variant named by `s`, if any.
    pub open spec fn from_name(s: Seq<char>) -> Option<Self> {
        if s == "READY"@ {
            Some(PaymentStatus::READY)
        } else if s == "PAID"@ {
            Some(PaymentStatus::PAID)
        } else if s == "CANCELLED"@ {
            Some(PaymentStatus::CANCELLED)
        } else if s == "PARTIAL_CANCELLED"@ {
            Some(PaymentStatus::PARTIAL_CANCELLED)
        } else {
            None
        }
    }

    /// The text name of the variant.
    pub fn as_str(&self) -> (res: &'static str)
        ensures
            res@ == self.name(),
    {
        match self {
            PaymentStatus::READY => "READY",
            PaymentStatus::PAID => "PAID",
            PaymentStatus::CANCELLED => "CANCELLED",
            PaymentStatus::PARTIAL_CANCELLED => "PARTIAL_CANCELLED",
        }
    }

    /// The variant whose text name is `s`, if there is one.
    pub fn parse(s: &str) -> (res: Option<Self>)
        ensures
            res == Self::from_name(s@),
    {
        if str_eq(s, "READY") {
            Some(PaymentStatus::READY)
        } else if str_eq(s, "PAID") {
            Some(PaymentStatus::PAID)
        } else if str_eq(s, "CANCELLED") {
            Some(PaymentStatus::CANCELLED)
        } else if str_eq(s, "PARTIAL_CANCELLED") {
            Some(PaymentStatus::PARTIAL_CANCELLED)
        } else {
            None
        }
    }
}

/// Parsing the name of a payment status gives back that value.
pub proof fn lemma_payment_status_name_round_trip(v: PaymentStatus)
    ensures
        PaymentStatus::from_name(v.name()) == Some(v),
{
    reveal_strlit("READY");
    reveal_strlit("PAID");
    reveal_strlit("CANCELLED");
    reveal_strlit("PARTIAL_CANCELLED");
    match v {
        PaymentStatus::READY => {
        },
        PaymentStatus::PAID => {
            assert("READY"@.len() != "PAID"@.len());
        },
        PaymentStatus::CANCELLED => {
            assert("READY"@.len() != "CANCELLED"@.len());
            assert("PAID"@.len() != "CANCELLED"@.len());
        },
        PaymentStatus::PARTIAL_CANCELLED => {
            assert("READY"@.len() != "PARTIAL_CANCELLED"@.len());
            assert("PAID"@.len() != "PARTIAL_CANCELLED"@.len());
            assert("CANCELLED"@.len() != "PARTIAL_CANCELLED"@.len());
        },
    }
}

/// A text that parses as a payment status is that value's name.
pub proof fn lemma_payment_status_parsed_name(s: Seq<char>)
    ensures
        PaymentStatus::from_name(s) matches Some(v) ==> v.name() == s,
{
}

/// Kind of a day on which the shop is closed.
#[allow(non_camel_case_types)]
#[derive(Debug, Clone, Copy, PartialEq, Eq, Structural)]
pub enum ClosedDayType {
    REGULAR,
    TEMPORARY,
}

impl ClosedDayType {
    /// The text name of the variant.
    pub open spec fn name(self) -> Seq<char> {
        match self {
            ClosedDayType::REGULAR => "REGULAR"@,
            ClosedDayType::TEMPORARY => "TEMPORARY"@,
        }
    }

    /// The variant named by `s`, if any.
    pub open spec fn from_name(s: Seq<char>) -> Option<Self> {
        if s == "REGULAR"@ {
            Some(ClosedDayType::REGULAR)
        } else if s == "TEMPORARY"@ {
            Some(ClosedDayType::TEMPORARY)
        } else {
            None
        }
    }

    /// The text name of the variant.
    pub fn as_str(&self) -> (res: &'static str)
        ensures
            res@ == self.name(),
    {
        match self {
            ClosedDayType::REGULAR => "REGULAR",
            ClosedDayType::TEMPORARY => "TEMPORARY",
        }
    }

    /// The variant whose text name is `s`, if there is one.
    pub fn parse(s: &str) -> (res: Option<Self>)
        ensures
            res == Self::from_name(s@),
    {
        if str_eq(s, "REGULAR") {
            Some(ClosedDayType::REGULAR)
        } else if str_eq(s, "TEMPORARY") {
            Some(ClosedDayType::TEMPORARY)
        } else {
            None
        }
    }
}

/// Parsing the name of a closed day type gives back that value.
pub proof fn lemma_closed_day_type_name_round_trip(v: ClosedDayType)
    ensures
        ClosedDayType::from_name(v.name()) == Some(v),
{
    reveal_strlit("REGULAR");
    reveal_strlit("TEMPORARY");
    match v {
        ClosedDayType::REGULAR => {
        },
        ClosedDayType::TEMPORARY => {
            assert("REGULAR"@.len() != "TEMPORARY"@.len());
        },
    }
}

/// A text that parses as a closed day type is that value's name.
pub proof fn lemma_closed_day_type_parsed_name(s: Seq<char>)
    ensures
        ClosedDayType::from_name(s) matches Some(v) ==> v.name() == s,
{
}

} // verus!
