use nail_salon::common::{
    BookingStatus, ClosedDayType, PaymentProvider, PaymentStatus, PaymentType, SocialProvider,
    UserRole,
};

#[test]
fn booking_status_names_round_trip() {
    for v in [
        BookingStatus::PENDING,
        BookingStatus::CONFIRMED,
        BookingStatus::COMPLETED,
        BookingStatus::CANCELLED_BY_USER,
        BookingStatus::CANCELLED_BY_ADMIN,
    ] {
        assert_eq!(BookingStatus::parse(v.as_str()), Some(v));
    }
    assert_eq!(BookingStatus::CANCELLED_BY_ADMIN.as_str(), "CANCELLED_BY_ADMIN");
    assert_eq!(BookingStatus::parse("pending"), None);
    assert_eq!(BookingStatus::parse(""), None);
}

#[test]
fn payment_status_names_round_trip() {
    for v in [
        PaymentStatus::READY,
        PaymentStatus::PAID,
        PaymentStatus::CANCELLED,
        PaymentStatus::PARTIAL_CANCELLED,
    ] {
        assert_eq!(PaymentStatus::parse(v.as_str()), Some(v));
    }
    assert_eq!(PaymentStatus::PARTIAL_CANCELLED.as_str(), "PARTIAL_CANCELLED");
    assert_eq!(PaymentStatus::parse("REFUNDED"), None);
}

#[test]
fn small_enums_names_round_trip() {
    for v in [UserRole::USER, UserRole::ADMIN] {
        assert_eq!(UserRole::parse(v.as_str()), Some(v));
    }
    for v in [SocialProvider::NAVER, SocialProvider::KAKAO] {
        assert_eq!(SocialProvider::parse(v.as_str()), Some(v));
    }
    for v in [PaymentProvider::NAVER_PAY, PaymentProvider::KAKAO_PAY] {
        assert_eq!(PaymentProvider::parse(v.as_str()), Some(v));
    }
    for v in [PaymentType::INSTANT, PaymentType::ONSITE] {
        assert_eq!(PaymentType::parse(v.as_str()), Some(v));
    }
    for v in [ClosedDayType::REGULAR, ClosedDayType::TEMPORARY] {
        assert_eq!(ClosedDayType::parse(v.as_str()), Some(v));
    }
    assert_eq!(UserRole::ADMIN.as_str(), "ADMIN");
    assert_eq!(PaymentProvider::KAKAO_PAY.as_str(), "KAKAO_PAY");
    assert_eq!(PaymentType::parse("ONSITE"), Some(PaymentType::ONSITE));
    assert_eq!(SocialProvider::parse("naver"), None);
    assert_eq!(ClosedDayType::parse("HOLIDAY"), None);
}
