use middle_data::model::league::League;
use middle_data::model::record::Record;
use middle_data::model::reverse::Reverse;
use middle_data::model::user::User;
use middle_data::time::DateTime;
use middle_data::util::{new_token_parts, Config, ConfigDatabase, ConfigRedis, ConfigServer};

#[test]
fn server_address_defaults() {
    assert_eq!(Config::default().server_address(), "0.0.0.0:9011");
    let empty = Config { server: Some(ConfigServer { path: None, port: None, tls: None }), database: None, redis: None };
    assert_eq!(empty.server_address(), "0.0.0.0:9011");
}

#[test]
fn server_address_from_settings() {
    let c = Config { server: Some(ConfigServer { path: Some("127.0.0.1".to_string()), port: Some(8443), tls: Some(true) }), database: None, redis: None };
    assert_eq!(c.server_address(), "127.0.0.1:8443");
    let odd = Config { server: Some(ConfigServer { path: Some("h".to_string()), port: Some(-1), tls: None }), database: None, redis: None };
    assert_eq!(odd.server_address(), "h:-1");
    let d = Config { server: Some(ConfigServer::default()), database: None, redis: None };
    assert_eq!(d.server_address(), "0.0.0.0:9011");
}

#[test]
fn config_defaults() {
    let s = ConfigServer::default();
    assert_eq!(s.path.as_deref(), Some("0.0.0.0"));
    assert_eq!(s.port, Some(9011));
    assert_eq!(s.tls, Some(false));
    let d = ConfigDatabase::default();
    assert!(d.url.is_none() && d.name.is_none() && d.username.is_none() && d.password.is_none());
    let r = ConfigRedis::default();
    assert_eq!((r.url.as_str(), r.username.as_str(), r.password.as_str(), r.expire), ("", "", "", 0));
}

#[test]
fn token_parts_hold_claims_and_fresh_key() {
    let (claims, key) = new_token_parts("LG1");
    assert_eq!(claims.sub, "LG1@org.void");
    assert_eq!(claims.company, "LG1");
    assert_eq!(key.len(), 32);
    let (_, other_key) = new_token_parts("LG1");
    assert_eq!(other_key.len(), 32);
    assert_ne!(key, other_key);
}

#[test]
fn model_defaults_and_inserts() {
    let u = User::default();
    assert_eq!((u.id, u.tag.as_str(), u.score, u.league_id, u.is_global), (0, "", 0, 0, false));
    assert!(u.name.is_none());
    let l = League::default();
    assert_eq!((l.id, l.name.as_str(), l.api_key.as_str()), (0, "", ""));
    assert_eq!(l.create_time, DateTime::epoch());
    let r = Record::insert_data(1, 2, 3, 4, 5, 6);
    assert_eq!((r.id, r.round_id, r.this_clan_id, r.other_clan_id, r.old_score, r.new_score, r.result), (0, 1, 2, 3, 4, 5, 6));
    assert_eq!(Record::default(), Record::insert_data(0, 0, 0, 0, 0, 0));
    let v = Reverse::insert_data(1, 2, 3, 4, 5, 6, 7, 8, 9);
    assert_eq!((v.id, v.round_id, v.this_clan_id, v.this_old_score, v.this_new_score), (0, 1, 2, 3, 4));
    assert_eq!((v.other_clan_id, v.other_old_score, v.other_new_score, v.old_result, v.new_result), (5, 6, 7, 8, 9));
    assert_eq!(v.create_time, DateTime::epoch());
}
