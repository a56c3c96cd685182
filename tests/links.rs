use interchannel_mover::commands::{choose_destination, cleanup_after_move, hide_requested, link_range, Cleanup, Destination, LinkRange};
use interchannel_mover::error::MoveError;
use interchannel_mover::link::{message_link_from_parts, parse_decimal, parse_identifier, parse_message_link};

#[test]
fn parses_a_message_link() {
    let r = parse_message_link("https://discord.com/channels/123/456/789");
    assert_eq!(r, Ok((123, 456, 789)));
}

#[test]
fn parses_a_link_inside_text() {
    let r = parse_message_link("see <https://discord.com/channels/1/22/333> here");
    assert_eq!(r, Ok((1, 22, 333)));
}

#[test]
fn rejects_a_text_that_is_no_link() {
    assert_eq!(parse_message_link("hello"), Err(MoveError::UnresolvedLinkBoundary));
    assert_eq!(parse_message_link("https://discord.com/channels/1/2"), Err(MoveError::UnresolvedLinkBoundary));
}

#[test]
fn rejects_a_zero_identifier() {
    assert_eq!(parse_message_link("https://discord.com/channels/0/2/3"), Err(MoveError::UnresolvedLinkBoundary));
}

#[test]
fn rejects_an_identifier_that_overflows() {
    let r = parse_message_link("https://discord.com/channels/1/2/99999999999999999999");
    assert_eq!(r, Err(MoveError::UnresolvedLinkBoundary));
}

#[test]
fn decimal_parsing() {
    assert_eq!(parse_decimal("0"), Some(0));
    assert_eq!(parse_decimal("42"), Some(42));
    assert_eq!(parse_decimal("18446744073709551615"), Some(u64::MAX));
    assert_eq!(parse_decimal("18446744073709551616"), None);
    assert_eq!(parse_decimal(""), None);
    assert_eq!(parse_decimal("12a"), None);
    assert_eq!(parse_decimal("+1"), None);
    assert_eq!(parse_identifier("0"), None);
    assert_eq!(parse_identifier("7"), Some(7));
}

#[test]
fn link_from_parts() {
    assert_eq!(message_link_from_parts("5", "6", "7"), Ok((5, 6, 7)));
    assert_eq!(message_link_from_parts("5", "x", "7"), Err(MoveError::UnresolvedLinkBoundary));
}

#[test]
fn range_from_links_in_one_channel() {
    let r = link_range(
        "https://discord.com/channels/1/10/100",
        Some("https://discord.com/channels/1/10/105"),
    );
    assert_eq!(r, Ok(LinkRange { channel: 10, from: 100, to: Some(105) }));
    let open = link_range("https://discord.com/channels/1/10/100", None);
    assert_eq!(open, Ok(LinkRange { channel: 10, from: 100, to: None }));
}

#[test]
fn range_from_links_in_two_channels() {
    let r = link_range(
        "https://discord.com/channels/1/10/100",
        Some("https://discord.com/channels/1/11/105"),
    );
    assert_eq!(r, Err(MoveError::BoundaryNotInSameChannel));
    let bad = link_range("https://discord.com/channels/1/10/100", Some("nope"));
    assert_eq!(bad, Err(MoveError::UnresolvedLinkBoundary));
}

#[test]
fn destination_must_be_given_once() {
    assert!(matches!(choose_destination(Some(3), None), Ok(Destination::Existing(3))));
    match choose_destination(None, Some("archive".to_string())) {
        Ok(Destination::Create(n)) => assert_eq!(n, "archive"),
        _ => panic!("expected a channel to create"),
    }
    assert!(matches!(choose_destination(Some(3), Some("a".to_string())), Err(MoveError::AmbiguousDestination)));
    assert!(matches!(choose_destination(None, None), Err(MoveError::AmbiguousDestination)));
}

#[test]
fn hiding_is_the_default() {
    assert!(hide_requested(None));
    assert!(hide_requested(Some(true)));
    assert!(!hide_requested(Some(false)));
}

#[test]
fn cleanup_choice() {
    assert_eq!(cleanup_after_move(true, true), Cleanup::DeleteChannel);
    assert_eq!(cleanup_after_move(false, true), Cleanup::DeleteMessages);
    assert_eq!(cleanup_after_move(false, false), Cleanup::KeepAll);
}

#[test]
fn user_facing_errors() {
    assert!(MoveError::BoundaryNotInSameChannel.is_user_facing());
    assert!(MoveError::AmbiguousDestination.is_user_facing());
    assert!(MoveError::UnresolvedLinkBoundary.is_user_facing());
    assert!(MoveError::ContentTooLong.is_user_facing());
    assert!(!MoveError::TransportFailure.is_user_facing());
    assert!(!MoveError::MissingThreadParent.is_user_facing());
}
