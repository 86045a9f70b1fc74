use landz_server::dev::dev_config::DevConfig;
use landz_server::exploration::{blur_patch, blur_region};
use landz_server::grid::{cell_debug, unsigned_distance, GridCell};
use landz_server::networking::rooms::{chunk_changed, nearby_room_chunks};
use landz_server::networking::network_server::NetworkServer;
use landz_server::networking::SessionTable;
use landz_server::text::{i64_text, join_strings, u64_list_debug, u64_text};
use landz_server::database::{batch_ranges, database_settings, DatabaseClient, DatabaseCredentials};
use landz_server::cli::{command, map_name, CliCommand};

fn dev(speed: u64, bypass: bool) -> DevConfig {
    DevConfig { dev_mode: true, speed_factor: speed, bypass_resources: bypass }
}

#[test]
fn apply_speed_divides_with_floor() {
    assert_eq!(dev(1, false).apply_speed(30000), 30000);
    assert_eq!(dev(10, false).apply_speed(30000), 3000);
    assert_eq!(dev(10, false).apply_speed(4000), 500);
    assert!(dev(3, true).skip_resource_check());
}

#[test]
fn dev_config_from_env_values() {
    let c = DevConfig::from_env_values(Some("true".to_string()), Some("4".to_string()), None);
    assert!(c.dev_mode);
    assert_eq!(c.speed_factor, 4);
    assert!(c.bypass_resources);
    let c = DevConfig::from_env_values(Some("1".to_string()), Some("x".to_string()), Some("0".to_string()));
    assert_eq!(c.speed_factor, 10);
    assert!(!c.bypass_resources);
    let c = DevConfig::from_env_values(None, Some("4".to_string()), Some("true".to_string()));
    assert!(!c.dev_mode);
    assert_eq!(c.speed_factor, 1);
    assert!(!c.bypass_resources);
}

#[test]
fn decimal_texts() {
    assert_eq!(u64_text(0), "0");
    assert_eq!(u64_text(1234567), "1234567");
    assert_eq!(i64_text(-42), "-42");
    assert_eq!(i64_text(i64::MIN), i64::MIN.to_string());
    assert_eq!(u64_list_debug(&vec![1, 22, 3]), "[1, 22, 3]");
    assert_eq!(u64_list_debug(&vec![]), "[]");
    assert_eq!(join_strings(&vec!["a".to_string(), "b".to_string()], ", "), "a, b");
}

#[test]
fn grid_cells() {
    let a = GridCell { q: 0, r: 0 };
    let b = GridCell { q: 2, r: -1 };
    assert_eq!(unsigned_distance(&a, &b), 2);
    assert_eq!(cell_debug(&b), format!("{:?}", b));
}

#[test]
fn sessions_track_players() {
    let mut t = SessionTable::new();
    t.insert(1);
    t.insert(2);
    t.authenticate_session(1, 77);
    assert_eq!(t.session_for_player(77), Ok(1));
    assert_eq!(t.session_for_player(5), Err("Player 5 not found in sessions".to_string()));
    t.remove(1);
    assert_eq!(t.count(), 1);
    assert!(t.session_for_player(77).is_err());
}

#[test]
fn blur_keeps_a_uniform_patch() {
    let mut data = vec![100u8; 16 * 16];
    blur_patch(&mut data, 16, 16);
    assert!(data.iter().all(|&v| v == 100));
}

#[test]
fn blur_spreads_a_spike() {
    let mut data = vec![0u8; 32 * 32];
    data[16 * 32 + 16] = 242;
    blur_region(&mut data, 32, 32, 0, 0, 32, 32);
    // 242 / 11 = 22 after the row pass, 22 / 11 = 2 after the column pass.
    assert_eq!(data[16 * 32 + 16], 2);
    assert_eq!(data[0], 0);
}

#[test]
fn blur_of_a_middle_row_keeps_a_uniform_texture() {
    let mut data = vec![255u8, 255, 255];
    blur_region(&mut data, 1, 3, 0, 1, 1, 1);
    assert_eq!(data, vec![255u8, 255, 255]);
}

#[test]
fn blur_of_a_sub_region_reads_rows_outside_it() {
    // Rows 0..4 hold 110, row 4 holds 0; blurring row 4 alone averages 110s in.
    let mut data = vec![110u8; 5];
    data[4] = 0;
    blur_region(&mut data, 1, 5, 0, 4, 1, 1);
    // Rows 4-5 .. 4+5 clamp to rows 0..=4: five rows of 110 below, six of 0 at the edge.
    assert_eq!(data[4], (5 * 110 / 11) as u8);
    assert_eq!(&data[0..4], &[110u8, 110, 110, 110]);
}

#[test]
fn blur_of_an_empty_patch_changes_nothing() {
    let mut data = vec![7u8, 9];
    blur_patch(&mut data, 0, 0);
    assert_eq!(data, vec![7u8, 9]);
    blur_region(&mut data, 2, 1, 0, 0, 0, 1);
    assert_eq!(data, vec![7u8, 9]);
}

#[test]
fn rooms_around_a_chunk() {
    let r = nearby_room_chunks(10, -3);
    assert_eq!(r.len(), 81);
    assert_eq!(r[0], (6, -7));
    assert_eq!(r[1], (6, -6));
    assert_eq!(r[80], (14, 1));
    assert!(chunk_changed(1, 2, 1, 3));
    assert!(!chunk_changed(1, 2, 1, 2));
}

#[test]
fn network_server_address() {
    let s = NetworkServer::new("0.0.0.0".to_string(), 9001);
    assert_eq!(s.bind_address(), "0.0.0.0:9001");
    let s = NetworkServer::from_settings(None, Some("abc".to_string()));
    assert_eq!(s.address, "127.0.0.1");
    assert_eq!(s.port, 9001);
    let s = NetworkServer::from_settings(Some("h".to_string()), Some("80".to_string()));
    assert_eq!(s.bind_address(), "h:80");
}

#[test]
fn database_url_and_defaults() {
    let c = DatabaseClient::new("postgres", "db:5432", "game");
    let creds = DatabaseCredentials { username: "u".to_string(), password: "p".to_string() };
    assert_eq!(c.database_url(&creds), "postgres://u:p@db:5432/game");
    let (c, creds) = database_settings(None, None, None, None, None, None);
    assert_eq!(c.protocol, "postgres");
    assert_eq!(c.address, "localhost:5432");
    assert_eq!(c.name, "living_landz");
    assert_eq!(creds.username, "postgres");
    assert_eq!(creds.password, "postgres");
    let (c, _) = database_settings(None, Some("h".to_string()), Some("99999".to_string()), None, None, None);
    assert_eq!(c.address, "h:5432");
}

#[test]
fn batches_of_rows() {
    assert_eq!(batch_ranges(2500, 1000), vec![(0, 1000), (1000, 2000), (2000, 2500)]);
    assert_eq!(batch_ranges(0, 1000), vec![]);
    assert_eq!(batch_ranges(1000, 1000), vec![(0, 1000)]);
}

#[test]
fn command_line_map_and_commands() {
    let args: Vec<String> = vec!["server".into(), "--map=--map=north".into(), "--map=south".into()];
    assert_eq!(map_name(&args), "north");
    assert_eq!(map_name(&vec!["server".to_string()]), "test_island");
    assert_eq!(command(&args), None);
    let args: Vec<String> = vec!["--generate-world".into(), "--clear".into()];
    assert_eq!(command(&args), Some(CliCommand::Clear));
    assert_eq!(command(&vec!["--regen-territory".to_string()]), Some(CliCommand::RegenTerritory));
}

#[test]
fn numbers_parse_as_std_does() {
    let speed = |v: &str| DevConfig::from_env_values(Some("true".to_string()), Some(v.to_string()), None).speed_factor;
    assert_eq!(speed("+7"), 7);
    assert_eq!(speed("007"), 7);
    assert_eq!(speed("-7"), 10);
    assert_eq!(speed(""), 10);
    assert_eq!(speed("+"), 10);
    assert_eq!(speed(" 7"), 10);
    assert_eq!(speed("18446744073709551616"), 10);
    let port = |v: &str| NetworkServer::from_settings(None, Some(v.to_string())).port;
    assert_eq!(port("+80"), 80);
    assert_eq!(port("65535"), 65535);
    assert_eq!(port("65536"), 9001);
    assert_eq!(port("8o"), 9001);
    for v in ["0", "+0", "00000000000000000080", "++1", "1+", "é1", "\u{ff11}", "65534", "4294967376", "9"] {
        assert_eq!(port(v), v.parse::<u16>().unwrap_or(9001), "{}", v);
    }
}
