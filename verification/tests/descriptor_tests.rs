use dbtext::descriptor::ConnectionDescriptor;

fn sqlite(driver: &str, db_path: &str) -> ConnectionDescriptor {
    ConnectionDescriptor::Sqlite { driver: driver.to_string(), db_path: db_path.to_string() }
}

fn postgres(
    driver: &str,
    host: &str,
    port: u16,
    database: &str,
    user: &str,
    password: &str,
) -> ConnectionDescriptor {
    ConnectionDescriptor::Postgres {
        driver: driver.to_string(),
        host: host.to_string(),
        port,
        database: database.to_string(),
        user: user.to_string(),
        password: password.to_string(),
    }
}

#[test]
fn sqlite_connection_string_exact() {
    let d = sqlite("SQLite3", "/tmp/t.db");
    assert_eq!(d.to_connection_string(), "Driver={SQLite3};Database=/tmp/t.db;");
}

#[test]
fn postgres_connection_string_exact() {
    let d = postgres("PostgreSQL Unicode", "db.example.com", 5432, "shop", "alice", "s3cret");
    assert_eq!(
        d.to_connection_string(),
        "Driver={PostgreSQL Unicode};Server=db.example.com;Port=5432;Database=shop;Uid=alice;Pwd=s3cret;"
    );
}

#[test]
fn port_rendering_edges() {
    let low = postgres("P", "h", 0, "d", "u", "p");
    assert_eq!(low.to_connection_string(), "Driver={P};Server=h;Port=0;Database=d;Uid=u;Pwd=p;");
    let high = postgres("P", "h", 65535, "d", "u", "p");
    assert_eq!(
        high.to_connection_string(),
        "Driver={P};Server=h;Port=65535;Database=d;Uid=u;Pwd=p;"
    );
}

#[test]
fn connection_string_is_deterministic() {
    let a = sqlite("SQLite3", "/tmp/t.db");
    let b = sqlite("SQLite3", "/tmp/t.db");
    assert_eq!(a.to_connection_string(), b.to_connection_string());
    assert_eq!(a.to_connection_string(), a.to_connection_string());

    let c = postgres("PostgreSQL", "localhost", 5432, "db", "u", "pw");
    let d = postgres("PostgreSQL", "localhost", 5432, "db", "u", "pw");
    assert_eq!(c.to_connection_string(), d.to_connection_string());
}

#[test]
fn empty_fields_pass_through() {
    let d = sqlite("", "");
    assert_eq!(d.to_connection_string(), "Driver={};Database=;");
}
