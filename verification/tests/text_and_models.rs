use seggwat_cli::cli::{FeedbackStatusArg, FeedbackTypeArg, RatingTypeArg};
use seggwat_cli::error::CliError;
use seggwat_cli::models::{
    default_max_stars, format_rating_value, FeedbackSource, FeedbackStatus, FeedbackType,
    RatingType, RatingValue,
};
use seggwat_cli::text::{
    contains, decimal_string, join, signed_decimal_string, starts_with, trim, trim_end_char,
    truncate_with_dots, truncate_with_ellipsis,
};

#[test]
fn decimal_rendering() {
    assert_eq!(decimal_string(0), "0");
    assert_eq!(decimal_string(1234567890), "1234567890");
    assert_eq!(signed_decimal_string(-42), "-42");
    assert_eq!(signed_decimal_string(i64::MIN), "-9223372036854775808");
}

#[test]
fn searching_and_trimming() {
    assert!(starts_with("localhost:8085", "localhost"));
    assert!(!starts_with("local", "localhost"));
    assert!(contains("https://api.seggwat.com", "seggwat.com"));
    assert!(!contains("https://example.org", "seggwat.com"));
    assert_eq!(trim_end_char("https://x.io///", '/'), "https://x.io");
    assert_eq!(trim("  \t hello world \n"), "hello world");
    assert_eq!(join(&vec!["a".to_string(), "b".to_string(), "c".to_string()], ", "), "a, b, c");
    assert_eq!(join(&vec![], ", "), "");
}

#[test]
fn truncation_with_dots() {
    assert_eq!(truncate_with_dots("short", 60), "short");
    assert_eq!(truncate_with_dots("abcdefghij", 8), "abcde...");
    assert_eq!(truncate_with_dots("abcdefghij", 2), "...");
    assert_eq!(truncate_with_dots("héllo wörld", 7), "héll...");
}

#[test]
fn truncation_with_ellipsis() {
    assert_eq!(truncate_with_ellipsis("anything", 0), "");
    assert_eq!(truncate_with_ellipsis("fits", 4), "fits");
    assert_eq!(truncate_with_ellipsis("too long", 4), "too…");
    assert!(truncate_with_ellipsis("a much longer text", 5).chars().count() <= 5);
}

#[test]
fn rating_values_read_as_text() {
    assert_eq!(format_rating_value(&RatingValue::Helpful { value: true }), "Helpful");
    assert_eq!(format_rating_value(&RatingValue::Helpful { value: false }), "Not Helpful");
    assert_eq!(format_rating_value(&RatingValue::Star { value: 4, max_stars: 5 }), "4/5");
    assert_eq!(format_rating_value(&RatingValue::Nps { value: 9 }), "9/10");
    assert_eq!(default_max_stars(), 5);
}

#[test]
fn labels_of_the_enums() {
    assert_eq!(FeedbackType::Improvement.as_str(), "Improvement");
    assert_eq!(FeedbackStatus::Hold.as_str(), "Hold");
    assert_eq!(FeedbackSource::Widget.as_str(), "Feedback Button");
    assert_eq!(FeedbackSource::SocialShare.as_str(), "Social Share");
    assert!(FeedbackSource::default() == FeedbackSource::Widget);
    assert_eq!(RatingType::Nps.as_str(), "nps");
}

#[test]
fn option_values_name_the_models() {
    assert!(FeedbackStatusArg::Resolved.to_model() == FeedbackStatus::Resolved);
    assert!(FeedbackTypeArg::Bug.to_model() == FeedbackType::Bug);
    assert_eq!(FeedbackStatusArg::Assigned.as_str(), FeedbackStatus::Assigned.as_str());
    assert_eq!(FeedbackTypeArg::Praise.as_str(), FeedbackType::Praise.as_str());
    assert_eq!(RatingTypeArg::Star.as_str(), "star");
}

#[test]
fn error_texts() {
    assert_eq!(CliError::Request("timeout".to_string()).text(), "HTTP request failed: timeout");
    assert_eq!(
        CliError::ServerError { status: 502, message: "bad gateway".to_string() }.text(),
        "Server error (502): bad gateway"
    );
    assert_eq!(CliError::LoginTimeout.text(), "Login timed out. Please try again.");
    assert_eq!(
        CliError::TokenStorage { message: "disk full".to_string() }.text(),
        "Token storage error: disk full"
    );
    assert_eq!(
        CliError::Unauthorized { message: "x".to_string() }.text(),
        "Authentication failed: x"
    );
}
