use rps::args::{join_game, Arguments, ConnectionMode};
use rps::moves::{PlayerChoice, PAPER_ART, ROCK_ART, SCISSORS_ART};
use rps::outcome::{resolve, versus, Outcome};
use rps::protocol::{decode, encode, receive_outcome, BUFFER_CAPACITY, GAME_PORT};

const ALL: [PlayerChoice; 3] = [PlayerChoice::Rock, PlayerChoice::Paper, PlayerChoice::Scissors];

fn args(words: &[&str]) -> Vec<String> {
    words.iter().map(|w| w.to_string()).collect()
}

/// What a player's zeroed receive buffer holds after one read of `sent`.
fn received(sent: &[u8]) -> [u8; BUFFER_CAPACITY] {
    let mut buffer = [0u8; BUFFER_CAPACITY];
    buffer[..sent.len()].copy_from_slice(sent);
    buffer
}

#[test]
fn resolve_is_antisymmetric_on_valid_tokens() {
    for a in ALL {
        for b in ALL {
            let ab = resolve(a, b.token());
            let ba = resolve(b, a.token());
            assert_eq!(ab == Outcome::Win, ba == Outcome::Lose);
            assert_eq!(ab == Outcome::Draw, a == b);
        }
        assert_eq!(resolve(a, a.token()), Outcome::Draw);
    }
}

#[test]
fn cyclic_dominance() {
    assert_eq!(resolve(PlayerChoice::Rock, b"scissors".to_vec()), Outcome::Win);
    assert_eq!(resolve(PlayerChoice::Scissors, b"paper".to_vec()), Outcome::Win);
    assert_eq!(resolve(PlayerChoice::Paper, b"rock".to_vec()), Outcome::Win);
    assert_eq!(resolve(PlayerChoice::Scissors, b"rock".to_vec()), Outcome::Lose);
    assert_eq!(resolve(PlayerChoice::Paper, b"scissors".to_vec()), Outcome::Lose);
    assert_eq!(resolve(PlayerChoice::Rock, b"paper".to_vec()), Outcome::Lose);
}

#[test]
fn versus_matches_the_table() {
    assert_eq!(versus(PlayerChoice::Rock, PlayerChoice::Rock), Outcome::Draw);
    assert_eq!(versus(PlayerChoice::Rock, PlayerChoice::Paper), Outcome::Lose);
    assert_eq!(versus(PlayerChoice::Rock, PlayerChoice::Scissors), Outcome::Win);
    assert_eq!(versus(PlayerChoice::Paper, PlayerChoice::Rock), Outcome::Win);
    assert_eq!(versus(PlayerChoice::Paper, PlayerChoice::Paper), Outcome::Draw);
    assert_eq!(versus(PlayerChoice::Paper, PlayerChoice::Scissors), Outcome::Lose);
    assert_eq!(versus(PlayerChoice::Scissors, PlayerChoice::Rock), Outcome::Lose);
    assert_eq!(versus(PlayerChoice::Scissors, PlayerChoice::Paper), Outcome::Win);
    assert_eq!(versus(PlayerChoice::Scissors, PlayerChoice::Scissors), Outcome::Draw);
}

#[test]
fn decode_ignores_zero_padding() {
    for n in 4..=BUFFER_CAPACITY {
        let mut buffer = b"rock".to_vec();
        buffer.resize(n, 0);
        assert_eq!(decode(&buffer), b"rock".to_vec());
    }
    assert_eq!(decode(&received(b"rock")), b"rock".to_vec());
}

#[test]
fn decode_strips_embedded_zero_bytes() {
    let mut buffer = vec![b'r', b'o', 0, b'c', b'k'];
    buffer.resize(BUFFER_CAPACITY, 0);
    assert_eq!(decode(&buffer), b"rock".to_vec());
    assert_eq!(decode(&[0, 0, b'p', 0, b'a', b'p', b'e', 0, b'r']), b"paper".to_vec());
}

#[test]
fn decode_of_empty_and_all_zero_buffers_is_empty() {
    assert_eq!(decode(&[]), Vec::<u8>::new());
    assert_eq!(decode(&[0u8; BUFFER_CAPACITY]), Vec::<u8>::new());
}

#[test]
fn garbage_token_is_cheat() {
    let garbage = vec![0xff, 0x13, b'x', 0x80];
    assert_eq!(resolve(PlayerChoice::Rock, garbage.clone()), Outcome::Cheat(garbage));
    assert_eq!(resolve(PlayerChoice::Paper, b"lizard".to_vec()), Outcome::Cheat(b"lizard".to_vec()));
    assert_eq!(resolve(PlayerChoice::Paper, b"Rock".to_vec()), Outcome::Cheat(b"Rock".to_vec()));
    assert_eq!(resolve(PlayerChoice::Scissors, Vec::new()), Outcome::Cheat(Vec::new()));
    let buffer = received(&[0xde, 0xad, 0xbe, 0xef]);
    assert_eq!(
        receive_outcome(PlayerChoice::Scissors, &buffer),
        Outcome::Cheat(vec![0xde, 0xad, 0xbe, 0xef])
    );
}

#[test]
fn host_rock_against_join_scissors() {
    let host = PlayerChoice::Rock;
    let join = PlayerChoice::Scissors;
    let at_host = received(&encode(join));
    let at_join = received(&encode(host));
    assert_eq!(receive_outcome(host, &at_host), Outcome::Win);
    assert_eq!(receive_outcome(join, &at_join), Outcome::Lose);
    let seen_by_host = PlayerChoice::from_token(&decode(&at_host)).unwrap();
    let seen_by_join = PlayerChoice::from_token(&decode(&at_join)).unwrap();
    assert_eq!(seen_by_host.ascii_art(), SCISSORS_ART);
    assert_eq!(seen_by_join.ascii_art(), ROCK_ART);
}

#[test]
fn both_paper_is_a_draw() {
    let at_host = received(&encode(PlayerChoice::Paper));
    let at_join = received(&encode(PlayerChoice::Paper));
    assert_eq!(receive_outcome(PlayerChoice::Paper, &at_host), Outcome::Draw);
    assert_eq!(receive_outcome(PlayerChoice::Paper, &at_join), Outcome::Draw);
    assert_eq!(PlayerChoice::Paper.ascii_art(), PAPER_ART);
}

#[test]
fn no_arguments_is_a_usage_error() {
    assert!(Arguments::parse(&args(&["rps"])).is_err());
    assert!(Arguments::parse(&[]).is_err());
}

#[test]
fn parse_host() {
    let a = Arguments::parse(&args(&["rps", "host", "rock"])).unwrap();
    assert_eq!(a.mode, ConnectionMode::Hosting);
    assert_eq!(a.ip, "");
    assert_eq!(a.choice, PlayerChoice::Rock);
}

#[test]
fn parse_join() {
    let a = Arguments::parse(&args(&["rps", "join", "127.0.0.1", "scissors"])).unwrap();
    assert_eq!(a.mode, ConnectionMode::Joining);
    assert_eq!(a.ip, "127.0.0.1");
    assert_eq!(a.choice, PlayerChoice::Scissors);
}

#[test]
fn parse_rejects_malformed_lines() {
    let bad: [&[&str]; 9] = [
        &["rps", "host"],
        &["rps", "host", "lizard"],
        &["rps", "host", "rock", "extra"],
        &["rps", "host", "127.0.0.1", "rock"],
        &["rps", "join", "127.0.0.1"],
        &["rps", "join", "127.0.0.1", "Rock"],
        &["rps", "join", "127.0.0.1", "paper", "extra"],
        &["rps", "serve", "rock"],
        &["rps", "HOST", "rock"],
    ];
    for line in bad {
        assert!(Arguments::parse(&args(line)).is_err(), "{:?}", line);
    }
}

#[test]
fn join_address_gets_the_game_port() {
    assert_eq!(join_game("127.0.0.1"), format!("127.0.0.1:{}", GAME_PORT));
    assert_eq!(join_game("localhost"), "localhost:3334");
    assert_eq!(join_game("10.0.0.2:4000"), "10.0.0.2:4000");
}

#[test]
fn tokens_and_words() {
    assert_eq!(encode(PlayerChoice::Rock), b"rock".to_vec());
    assert_eq!(encode(PlayerChoice::Paper), b"paper".to_vec());
    assert_eq!(encode(PlayerChoice::Scissors), b"scissors".to_vec());
    for m in ALL {
        assert_eq!(PlayerChoice::from_token(&m.token()), Some(m));
        assert!(m.token().len() <= BUFFER_CAPACITY);
    }
    assert_eq!(PlayerChoice::from_word("paper"), Some(PlayerChoice::Paper));
    assert_eq!(PlayerChoice::from_word("scissor"), None);
    assert_eq!(PlayerChoice::from_token(b"rock\0"), None);
}
