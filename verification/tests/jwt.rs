use octokit::jwt::{Claims, TOKEN_LIFETIME};
use octokit::listing::get_installation;

#[test]
fn token_lives_ten_minutes() {
    assert_eq!(TOKEN_LIFETIME, 600);
}

#[test]
fn claims_expire_after_the_lifetime() {
    let c = Claims::new(1_600_000_000, &"12345".to_string());
    assert_eq!(c.iat, 1_600_000_000);
    assert_eq!(c.exp, 1_600_000_600);
    assert_eq!(c.iss, "12345");
}

#[test]
fn claims_at_the_edges_of_time() {
    let c = Claims::new(0, &String::new());
    assert_eq!((c.iat, c.exp), (0, 600));
    assert_eq!(c.iss, "");
    let c = Claims::new(u64::MAX - 600, &"app".to_string());
    assert_eq!(c.exp, u64::MAX);
}

#[test]
fn get_installation_returns() {
    get_installation();
}
