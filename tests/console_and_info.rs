use rhxd::access::AccessPrivileges;
use rhxd::account::Account;
use rhxd::config::{accepts_connection, Config};
use rhxd::console::{parse_user_id, resolve_kick_target, Command};
use rhxd::registry::SessionRegistry;
use rhxd::field::{Field, FieldId};
use rhxd::handlers::{
    account_reply, client_info_reply, client_info_target, plan_delete_user, plan_get_user, plan_new_user,
    plan_set_user, AccountOutcome, AccountPlan,
};
use rhxd::password::xor_password;
use rhxd::session::Session;
use rhxd::transaction::Transaction;
use rhxd::types::TransactionType;

#[test]
fn console_commands() {
    match Command::parse("create-account bob pw") {
        Ok(Command::CreateAccount { login, password, access_level }) => {
            assert_eq!((login.as_str(), password.as_str(), access_level.as_str()), ("bob", "pw", "admin"));
        }
        _ => panic!("create-account expected"),
    }
    match Command::parse("  broadcast   hello   there world ") {
        Ok(Command::Broadcast { message }) => assert_eq!(message, "hello there world"),
        _ => panic!("broadcast expected"),
    }
    assert!(matches!(Command::parse("quit"), Ok(Command::Stop)));
    assert!(matches!(Command::parse("list-users"), Ok(Command::ListUsers)));
    assert_eq!(Command::parse("").unwrap_err(), "Empty command");
    assert_eq!(Command::parse("kick").unwrap_err(), "Usage: kick <user_id|nickname>");
    assert_eq!(Command::parse("dance now").unwrap_err(), "Unknown command: 'dance'");
    match Command::parse("set-access bob guest") {
        Ok(Command::SetAccess { login, access_level }) => {
            assert_eq!((login.as_str(), access_level.as_str()), ("bob", "guest"));
        }
        _ => panic!("set-access expected"),
    }
}

#[test]
fn default_configuration() {
    let c = Config::default();
    assert_eq!(c.server.port, 5500);
    assert_eq!(c.server.max_connections, 100);
    assert!(!c.security.allow_guest);
    assert_eq!(c.server.name, "My Hotline Server");
    let t = rhxd::tracker_config::Config::default();
    assert_eq!(t.server.port, 5498);
    assert!(accepts_connection(99, 100));
    assert!(!accepts_connection(100, 100));
}

fn admin() -> Option<AccessPrivileges> {
    Some(AccessPrivileges::admin())
}

#[test]
fn client_info_text() {
    let mut req = Transaction::new(TransactionType::GetClientInfoText);
    req.id = 11;
    assert_eq!(client_info_target(&req, Some(AccessPrivileges::guest())).unwrap_err().error_code, 2);
    assert_eq!(client_info_target(&req, None).unwrap_err().error_code, 2);
    assert_eq!(client_info_target(&req, admin()).unwrap_err().error_code, 5);
    req.add_field(Field::integer(FieldId::UserId, 3));
    assert_eq!(client_info_target(&req, admin()).unwrap(), 3);
    let mut s = Session::new(3, "10.0.0.1:1234".to_string(), 1000);
    s.nickname = "carol".to_string();
    s.icon_id = 128;
    let reply = client_info_reply(&req, Some(&s), None, 1000 + 3725, "10.0.0.1");
    assert_eq!((reply.id, reply.error_code), (11, 0));
    let text = String::from_utf8(reply.fields[0].as_binary().unwrap().to_vec()).unwrap();
    assert_eq!(
        text,
        "Nickname:   carol\rUser ID:    3\rIcon:       128\rAway:       1 hr 2 min 5 sec\rName:       Guest\rAccount:    Guest\rAddress:    10.0.0.1"
    );
    let reply = client_info_reply(&req, Some(&s), None, 1000 + 90061, "x");
    let text = String::from_utf8(reply.fields[0].as_binary().unwrap().to_vec()).unwrap();
    assert!(text.contains("Away:       1 day 1 hr 1 min 1 sec"));
    let reply = client_info_reply(&req, Some(&s), None, 10, "x");
    let text = String::from_utf8(reply.fields[0].as_binary().unwrap().to_vec()).unwrap();
    assert!(text.contains("Away:       0 sec"));
    assert_eq!(client_info_reply(&req, None, None, 0, "").error_code, 3);
    s.account_id = Some(4);
    let acc = Account {
        id: 4,
        login: "carol".to_string(),
        password_hash: vec![],
        name: "Carol C".to_string(),
        access: 0,
        created_at: 0,
        modified_at: 0,
    };
    let reply = client_info_reply(&req, Some(&s), Some(&acc), 1059, "x");
    let text = String::from_utf8(reply.fields[0].as_binary().unwrap().to_vec()).unwrap();
    assert!(text.contains("Away:       59 sec\rName:       Carol C\rAccount:    carol"));
    let reply = client_info_reply(&req, Some(&s), None, 1060, "x");
    let text = String::from_utf8(reply.fields[0].as_binary().unwrap().to_vec()).unwrap();
    assert!(text.contains("Away:       1 min 0 sec\rName:       Unknown\rAccount:    Unknown"));
}

#[test]
fn account_requests() {
    let mut req = Transaction::new(TransactionType::NewUser);
    req.id = 20;
    assert_eq!(plan_new_user(&req, Some(AccessPrivileges::user())).unwrap_err().error_code, 2);
    assert_eq!(plan_new_user(&req, admin()).unwrap_err().error_code, 5);
    req.add_field(Field::binary(FieldId::UserLogin, xor_password(b"dave")));
    req.add_field(Field::binary(FieldId::UserPassword, xor_password(b"pw")));
    req.add_field(Field::string(FieldId::UserName, "Dave".to_string()));
    req.add_field(Field::binary(FieldId::UserAccess, vec![0, 0, 0, 0, 0, 0x10, 0x06, 0x04]));
    match plan_new_user(&req, admin()).unwrap() {
        AccountPlan::Create { login, password_hash, name, access } => {
            assert_eq!(login, "dave");
            assert_eq!(password_hash, xor_password(b"pw"));
            assert_eq!(name, "Dave");
            assert_eq!(access, AccessPrivileges::guest());
        }
        _ => panic!("create expected"),
    }
    let r = account_reply(&req, AccountOutcome::AlreadyExists);
    assert_eq!((r.transaction_type, r.id, r.error_code), (TransactionType::NewUser, 20, 4));
    assert!(r.fields.is_empty());
    assert_eq!(account_reply(&req, AccountOutcome::NotFound).error_code, 3);
    assert_eq!(account_reply(&req, AccountOutcome::Done).error_code, 0);

    let mut get = Transaction::new(TransactionType::GetUser);
    get.add_field(Field::binary(FieldId::UserLogin, xor_password(b"dave")));
    assert!(matches!(plan_get_user(&get, admin()), Ok(AccountPlan::Get { ref login }) if login == "dave"));
    assert_eq!(plan_get_user(&get, None).unwrap_err().error_code, 2);
    let mut bad = Transaction::new(TransactionType::DeleteUser);
    bad.add_field(Field::binary(FieldId::UserLogin, vec![0x3f]));
    assert_eq!(plan_delete_user(&bad, admin()).unwrap_err().error_code, 5);
    let mut del = Transaction::new(TransactionType::DeleteUser);
    del.add_field(Field::binary(FieldId::UserLogin, xor_password(b"dave")));
    assert!(matches!(plan_delete_user(&del, admin()), Ok(AccountPlan::Delete { .. })));
    let mut set = Transaction::new(TransactionType::SetUser);
    set.add_field(Field::binary(FieldId::UserLogin, xor_password(b"dave")));
    match plan_set_user(&set, admin()).unwrap() {
        AccountPlan::Update { login, password_hash, access } => {
            assert_eq!(login, "dave");
            assert!(password_hash.is_none());
            assert!(access.is_none());
        }
        _ => panic!("update expected"),
    }
}

#[test]
fn kick_target_by_id_or_nickname() {
    assert_eq!(parse_user_id("42"), Some(42));
    assert_eq!(parse_user_id("+7"), Some(7));
    assert_eq!(parse_user_id("65535"), Some(65535));
    assert_eq!(parse_user_id("65536"), None);
    assert_eq!(parse_user_id(""), None);
    assert_eq!(parse_user_id("+"), None);
    assert_eq!(parse_user_id("4a"), None);
    assert_eq!(parse_user_id("-1"), None);
    let mut reg = SessionRegistry::new();
    let id = reg.allocate_user_id().unwrap();
    let mut s = Session::new(id, String::new(), 0);
    s.nickname = "Alice".to_string();
    reg.register_session(s);
    assert_eq!(resolve_kick_target(&reg, "aLiCe"), Some(id));
    assert_eq!(resolve_kick_target(&reg, "bob"), None);
    assert_eq!(resolve_kick_target(&reg, "300"), Some(300));
}

fn entry(path: &str) -> rhxd::db::FileEntry {
    rhxd::db::FileEntry {
        id: 1,
        path: path.to_string(),
        name: String::new(),
        is_folder: false,
        size: 0,
        type_code: None,
        creator_code: None,
        comment: None,
        created_at: 0,
        modified_at: 0,
        physical_path: String::new(),
    }
}

#[test]
fn parent_of_paths() {
    assert_eq!(entry("/").parent_path(), None);
    assert_eq!(entry("/folder/nested.txt").parent_path(), Some("/folder".to_string()));
    assert_eq!(entry("/folder/sub/").parent_path(), Some("/folder".to_string()));
    assert_eq!(entry("/file1.txt").parent_path(), Some(String::new()));
    assert_eq!(entry("loose").parent_path(), Some("/".to_string()));
    assert_eq!(entry("/d\u{e9}j\u{e0}/x").parent_path(), Some("/d\u{e9}j\u{e0}".to_string()));
}

#[test]
fn sql_script_statements() {
    let sql = "-- comment\nCREATE TABLE a (x TEXT DEFAULT 'a;b');\n\nINSERT INTO a VALUES (\"q\");  -- trailing\nCREATE TABLE b (\n  y INT\n);\r\nSELECT 1";
    let stmts = rhxd::db::parse_sql_statements(sql);
    assert_eq!(
        stmts,
        vec![
            "CREATE TABLE a (x TEXT DEFAULT 'a;b')".to_string(),
            "INSERT INTO a VALUES (\"q\")".to_string(),
            "SELECT 1".to_string(),
        ]
    );
    assert!(rhxd::db::parse_sql_statements("  ;; -- x\n").is_empty());
    assert_eq!(
        rhxd::db::parse_sql_statements("CREATE TABLE b (\n  y INT\n);"),
        vec!["CREATE TABLE b (\n  y INT\n)".to_string()]
    );
}

#[test]
fn statements_from_lines() {
    let lines = vec!["-- c".to_string(), "SELECT 'a;b';".to_string(), "  ".to_string(), "SELECT 2".to_string()];
    assert_eq!(
        rhxd::db::statements_of_lines(&lines),
        vec!["SELECT 'a;b'".to_string(), "SELECT 2".to_string()]
    );
}
