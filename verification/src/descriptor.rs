use vstd::prelude::*;
use vstd::string::StringExecFns;

verus! {

/// The parameters that identify one database instance.
///
/// A descriptor is an immutable value object: its only capability is to render
/// itself as a driver connection string, and no other component depends on a
/// variant's concrete fields.
pub enum ConnectionDescriptor {
    /// A file-backed database reached through a named driver.
    Sqlite { driver: String, db_path: String },
    /// A server-based database reached through a named driver.
    Postgres {
        driver: String,
        host: String,
        port: u16,
        database: String,
        user: String,
        password: String,
    },
}

/// Mathematical image of a descriptor: each text field as a sequence of
/// characters.
pub enum DescriptorView {
    Sqlite { driver: Seq<char>, db_path: Seq<char> },
    Postgres {
        driver: Seq<char>,
        host: Seq<char>,
        port: u16,
        database: Seq<char>,
        user: Seq<char>,
        password: Seq<char>,
    },
}

impl View for ConnectionDescriptor {
    type V = DescriptorView;

    open spec fn view(&self) -> DescriptorView {
        match self {
            ConnectionDescriptor::Sqlite { driver, db_path } => DescriptorView::Sqlite {
                driver: driver@,
                db_path: db_path@,
            },
            ConnectionDescriptor::Postgres { driver, host, port, database, user, password } => {
                DescriptorView::Postgres {
                    driver: driver@,
                    host: host@,
                    port: *port,
                    database: database@,
                    user: user@,
                    password: password@,
                }
            },
        }
    }
}

/// The single decimal digit `d` (for `d <= 9`) as a one-character sequence.
pub open spec fn digit_str(d: nat) -> Seq<char> {
    if d == 0 {
        "0"@
    } else if d == 1 {
        "1"@
    } else if d == 2 {
        "2"@
    } else if d == 3 {
        "3"@
    } else if d == 4 {
        "4"@
    } else if d == 5 {
        "5"@
    } else if d == 6 {
        "6"@
    } else if d == 7 {
        "7"@
    } else if d == 8 {
        "8"@
    } else {
        "9"@
    }
}

/// The decimal rendering of `n`, without a sign and without leading zeros
/// (except for `n == 0`, which renders as a single zero digit).
pub open spec fn dec_str(n: nat) -> Seq<char>
    decreases n,
{
    if n < 10 {
        digit_str(n)
    } else {
        dec_str(n / 10) + digit_str(n % 10)
    }
}

/// The connection string a descriptor renders to, in `Key=Value;` form.
///
/// Field values are passed through verbatim: no character of a field is
/// escaped, so a value containing `;` or `}` corrupts the string. Encoding
/// such values is delegated to the driver layer.
pub open spec fn connection_string_spec(d: DescriptorView) -> Seq<char> {
    match d {
        DescriptorView::Sqlite { driver, db_path } => "Driver={"@ + driver + "};Database="@
            + db_path + ";"@,
        DescriptorView::Postgres { driver, host, port, database, user, password } => "Driver={"@
            + driver + "};Server="@ + host + ";Port="@ + dec_str(port as nat) + ";Database="@
            + database + ";Uid="@ + user + ";Pwd="@ + password + ";"@,
    }
}

/// Appends the decimal rendering of `n` to `s`.
fn push_decimal(s: &mut String, n: u16)
    ensures
        final(s)@ == old(s)@ + dec_str(n as nat),
    decreases n,
{
    if n >= 10 {
        proof {
            assert(n / 10 < n) by (nonlinear_arith)
                requires
                    n >= 10,
            ;
        }
        push_decimal(s, n / 10);
    }
    let d: u16 = n % 10;
    if d == 0 {
        s.append("0");
    } else if d == 1 {
        s.append("1");
    } else if d == 2 {
        s.append("2");
    } else if d == 3 {
        s.append("3");
    } else if d == 4 {
        s.append("4");
    } else if d == 5 {
        s.append("5");
    } else if d == 6 {
        s.append("6");
    } else if d == 7 {
        s.append("7");
    } else if d == 8 {
        s.append("8");
    } else {
        s.append("9");
    }
    proof {
        assert(final(s)@ =~= old(s)@ + dec_str(n as nat));
    }
}

impl ConnectionDescriptor {
    /// Renders the descriptor as a driver connection string: a pure,
    /// deterministic function of the descriptor's fields.
    pub fn to_connection_string(&self) -> (r: String)
        ensures
            r@ == connection_string_spec(self@),
    {
        let mut s = String::new();
        match self {
            ConnectionDescriptor::Sqlite { driver, db_path } => {
                s.append("Driver={");
                s.append(driver.as_str());
                s.append("};Database=");
                s.append(db_path.as_str());
                s.append(";");
            },
            ConnectionDescriptor::Postgres { driver, host, port, database, user, password } => {
                s.append("Driver={");
                s.append(driver.as_str());
                s.append("};Server=");
                s.append(host.as_str());
                s.append(";Port=");
                push_decimal(&mut s, *port);
                s.append(";Database=");
                s.append(database.as_str());
                s.append(";Uid=");
                s.append(user.as_str());
                s.append(";Pwd=");
                s.append(password.as_str());
                s.append(";");
            },
        }
        proof {
            assert(s@ =~= connection_string_spec(self@));
        }
        s
    }
}

/// Rendering a connection string is a pure function of the descriptor's
/// fields: two descriptors whose fields are equal render to equal strings,
/// so two calls of `to_connection_string` on identical fields yield
/// identical results.
pub proof fn lemma_connection_string_deterministic(a: DescriptorView, b: DescriptorView)
    requires
        a == b,
    ensures
        connection_string_spec(a) == connection_string_spec(b),
{
}

} // verus!
