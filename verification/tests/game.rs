use baseball_game::game::{evaluate, GameSession, GuessResult, ValidationError};

#[test]
fn exact_guess_scores_three_strikes() {
    assert_eq!(evaluate([1, 2, 3], [1, 2, 3]), (3, 0));
    assert_eq!(evaluate([9, 0, 4], [9, 0, 4]), (3, 0));
    assert_eq!(evaluate([0, 5, 7], [0, 5, 7]), (3, 0));
}

#[test]
fn derangement_scores_three_balls() {
    // every digit of the secret present, none in its own position
    assert_eq!(evaluate([2, 3, 1], [1, 2, 3]), (0, 3));
    assert_eq!(evaluate([3, 1, 2], [1, 2, 3]), (0, 3));
    assert_eq!(evaluate([0, 4, 9], [9, 0, 4]), (0, 3));
}

#[test]
fn partial_match_scores() {
    // first digit in place, third secret digit present elsewhere
    assert_eq!(evaluate([1, 3, 5], [1, 2, 3]), (1, 1));
    // middle digit in place, the two others swapped
    assert_eq!(evaluate([3, 2, 1], [1, 2, 3]), (1, 2));
    // nothing shared at all
    assert_eq!(evaluate([4, 5, 6], [1, 2, 3]), (0, 0));
}

#[test]
fn duplicate_digit_guess_policy() {
    // The evaluator scans each secret position and tests membership of that
    // digit in the whole guess; a guess may repeat digits even though a
    // secret never does.
    assert_eq!(evaluate([2, 2, 1], [1, 2, 3]), (1, 1));
    assert_eq!(evaluate([2, 1, 1], [1, 2, 3]), (0, 2));
    assert_eq!(evaluate([2, 2, 2], [1, 2, 3]), (1, 0));
    assert_eq!(evaluate([9, 9, 1], [1, 2, 9]), (0, 2));
}

#[test]
fn validate_accepts_three_digit_strings() {
    let g = GameSession { secret: [1, 2, 3] };
    assert_eq!(g.validate("123"), Ok("123"));
    assert_eq!(g.validate("000"), Ok("000"));
    assert_eq!(g.validate("007"), Ok("007"));
    assert_eq!(g.validate("999"), Ok("999"));
}

#[test]
fn validate_rejects_wrong_length() {
    let g = GameSession { secret: [1, 2, 3] };
    assert_eq!(g.validate(""), Err(ValidationError::MalformedGuess));
    assert_eq!(g.validate("12"), Err(ValidationError::MalformedGuess));
    assert_eq!(g.validate("1234"), Err(ValidationError::MalformedGuess));
}

#[test]
fn validate_rejects_non_digit_characters() {
    let g = GameSession { secret: [1, 2, 3] };
    assert_eq!(g.validate("12a"), Err(ValidationError::MalformedGuess));
    assert_eq!(g.validate("a23"), Err(ValidationError::MalformedGuess));
    assert_eq!(g.validate("1 3"), Err(ValidationError::MalformedGuess));
    // a sign is not a digit, even though an integer parser would take it
    assert_eq!(g.validate("+12"), Err(ValidationError::MalformedGuess));
    assert_eq!(g.validate("-12"), Err(ValidationError::MalformedGuess));
}

#[test]
fn check_answer_detects_the_secret() {
    let g = GameSession { secret: [1, 2, 3] };
    assert_eq!(g.check_answer("123"), GuessResult::Correct);
    assert_eq!(
        g.check_answer("321"),
        GuessResult::Incorrect {
            strikes: 1,
            balls: 2
        }
    );
    assert_eq!(
        g.check_answer("231"),
        GuessResult::Incorrect {
            strikes: 0,
            balls: 3
        }
    );
    assert_eq!(
        g.check_answer("456"),
        GuessResult::Incorrect {
            strikes: 0,
            balls: 0
        }
    );
}

#[test]
fn generated_secrets_are_three_distinct_digits() {
    for _ in 0..500 {
        let s = GameSession::new().secret;
        assert!(s[0] < 10 && s[1] < 10 && s[2] < 10);
        assert!(s[0] != s[1] && s[0] != s[2] && s[1] != s[2]);
    }
}

#[test]
fn generated_secrets_cover_every_digit_in_every_position() {
    // each digit should appear in each position now and then
    let mut seen = [[false; 10]; 3];
    for _ in 0..5000 {
        let s = GameSession::new().secret;
        for pos in 0..3 {
            seen[pos][s[pos] as usize] = true;
        }
    }
    for pos in 0..3 {
        for digit in 0..10 {
            assert!(
                seen[pos][digit],
                "digit {} never drawn at position {}",
                digit, pos
            );
        }
    }
}
