use rss_feeder::api::{ApiResponse, Code, Context};
use rss_feeder::state::Config;
use rss_feeder::task::TaskPool;
use rss_feeder::utils::{rand_str, sha256, to_upper_hex, ALPHANUMERIC};

#[test]
fn test_sha256() {
    let h = sha256("aaaaa");
    println!("{}", h);
    assert_eq!(h.len(), 64);
    assert!(h.chars().all(|c| c.is_ascii_digit() || ('A'..='F').contains(&c)));
}

#[test]
fn test_rand_str() {
    let s = rand_str(8);
    println!("{}", s);
    assert_eq!(s.chars().count(), 8);
    assert!(s.chars().all(|c| ALPHANUMERIC.contains(c)));
}

#[test]
fn test_rand_str_sha256() {
    let h = sha256(&rand_str(8));
    println!("{}", h);
    assert_eq!(h.len(), 64);
}

#[test]
fn sha256_known_digests() {
    assert_eq!(sha256(""), "E3B0C44298FC1C149AFBF4C8996FB92427AE41E4649B934CA495991B7852B855");
    assert_eq!(sha256("abc"), "BA7816BF8F01CFEA414140DE5DAE2223B00361A396177A9CB410FF61F20015AD");
}

#[test]
fn upper_hex_writes_two_digits_per_byte() {
    assert_eq!(to_upper_hex(&[0x00, 0x0f, 0xa5, 0xff]), "000FA5FF");
    assert_eq!(to_upper_hex(&[]), "");
}

#[test]
fn rand_str_of_zero_is_empty() {
    assert_eq!(rand_str(0), "");
}

#[test]
fn default_config_values() {
    let c = Config::default();
    assert_eq!(c.bind_address, "[::]:8001");
    assert_eq!(c.username, "admin");
    assert_eq!(c.password, "");
    assert!(c.token.is_none());
    assert_eq!(c.db_path, "./db.bin");
    assert_eq!(c.session_path, "./session");
    assert!(c.torrent_options.trackers.is_empty());
    assert_eq!(c.output_path, "./downloads");
}

#[test]
fn config_updates_one_field() {
    let c = Config::default().update_password("pw".to_string()).update_bind_addr("0.0.0.0:9".to_string());
    assert_eq!(c.password, "pw");
    assert_eq!(c.bind_address, "0.0.0.0:9");
    assert_eq!(c.username, "admin");
}

#[test]
fn codes_have_their_values() {
    assert_eq!(Code::Success.value(), 200);
    assert_eq!(Code::AuthenticationError.value(), 501);
    assert_eq!(Code::ServerError.value(), 502);
}

#[test]
fn context_names_what_is_missing() {
    assert_eq!(Some(3).context("x").ok(), Some(3));
    assert_eq!(None::<u8>.context("session").err().unwrap().message(), "Missing session");
}

#[test]
fn responses_carry_code_data_and_message() {
    let r = ApiResponse::ok(5u8);
    assert_eq!(r.code, Code::Success);
    assert_eq!(r.data, 5);
    assert_eq!(r.msg, "Success");
    let e = ApiResponse::new(Code::ServerError, (), "boom");
    assert_eq!(e.code.value(), 502);
    assert_eq!(e.msg, "boom");
}

#[test]
fn task_pool_hands_out_increasing_ids() {
    let mut pool: TaskPool<&str> = TaskPool::new();
    assert_eq!(pool.last_task_id(), 0);
    let a = pool.add_task("poll".to_string(), "h1");
    let b = pool.add_task("save".to_string(), "h2");
    assert_eq!((a, b), (1, 2));
    assert_eq!(pool.get_task(2).unwrap().name, "save");
    assert!(pool.get_task(3).is_none());
    let t = pool.pop_task(1).unwrap();
    assert_eq!(t.handle, "h1");
    assert!(pool.get_task(1).is_none());
    assert!(pool.pop_task(1).is_none());
    assert_eq!(pool.get_task(2).unwrap().handle, "h2");
    assert_eq!(pool.add_task("x".to_string(), "h3"), 3);
    assert_eq!(pool.last_task_id(), 3);
}
