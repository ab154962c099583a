use radio::token::Token;
use tokio_util::sync::CancellationToken;

#[test]
fn a_new_token_is_live() {
    let token = Token::new();
    assert!(!token.is_cancelled());
    assert!(!token.shared().is_cancelled());
}

#[test]
fn cancelling_sets_the_shared_flag() {
    let mut token = Token::new();
    let seen_elsewhere = token.shared().clone();
    token.cancel();
    assert!(token.is_cancelled());
    assert!(token.shared().is_cancelled());
    assert!(seen_elsewhere.is_cancelled());
}

#[test]
fn cancelling_twice_is_cancelling_once() {
    let mut token = Token::new();
    let other = token.share();
    token.cancel();
    token.cancel();
    assert!(token.is_cancelled());
    assert!(other.is_cancelled());
}

#[test]
fn a_shared_token_refers_to_the_same_flag() {
    let token = Token::new();
    let mut other = token.share();
    assert!(token.shared() == other.shared());
    assert!(!other.is_cancelled());
    other.cancel();
    assert!(token.is_cancelled());
    assert!(token.share().is_cancelled());
}

#[test]
fn two_new_tokens_are_never_the_same() {
    let first = Token::new();
    let mut second = Token::new();
    assert!(first.shared() != second.shared());
    second.cancel();
    assert!(!first.is_cancelled());
}

#[test]
fn a_wrapped_token_follows_its_flag() {
    let flag = CancellationToken::new();
    let token = Token::wrap(flag.clone());
    assert!(token.shared() == &flag);
    assert!(!token.is_cancelled());
    flag.cancel();
    assert!(token.is_cancelled());

    let mut cancelled_here = Token::wrap(CancellationToken::new());
    let flag = cancelled_here.shared().clone();
    cancelled_here.cancel();
    assert!(flag.is_cancelled());
}

#[test]
fn superseding_cancels_the_old_token_and_not_the_new() {
    let mut current = Token::new();
    let session = current.share();
    let retired = current.supersede();
    assert!(retired.is_cancelled());
    assert!(session.is_cancelled());
    assert!(retired.shared() == session.shared());
    assert!(!current.is_cancelled());
    assert!(current.shared() != retired.shared());

    let again = current.supersede();
    assert!(again.is_cancelled());
    assert!(!current.is_cancelled());
    assert!(again.shared() != retired.shared());
}

#[test]
fn a_token_is_cancelled_by_its_own_request_or_by_the_shared_flag() {
    let mut token = Token::new();
    assert!(!token.cancelled_when(false));
    assert!(token.cancelled_when(true));
    token.cancel();
    assert!(token.cancelled_when(false));
    assert!(token.cancelled_when(true));
    assert!(token.share().cancelled_when(false));
}
