//! The server's address, and how its start can fail.

use vstd::prelude::*;

verus! {

/// Where the server listens.
#[derive(Debug)]
pub struct App {
    pub address: String,
    pub port: u32,
}

/// Why the server did not start. `FailedToBind` holds what the system said
/// of the failure.
#[derive(Debug)]
pub enum AppStartError {
    FailedToBind(String),
    FailedToStart,
}

impl AppStartError {
    /// The text that describes the failure.
    pub fn message(&self) -> (text: String)
        ensures
            match self {
                AppStartError::FailedToBind(detail) => text@ == "Failed to bind "@ + detail@,
                AppStartError::FailedToStart => text@ == "Failed to start app"@,
            },
    {
        match self {
            AppStartError::FailedToBind(detail) => {
                let mut text = "Failed to bind ".to_owned();
                text.append(detail.as_str());
                text
            },
            AppStartError::FailedToStart => "Failed to start app".to_owned(),
        }
    }
}

/// The character of the decimal digit `digit`.
pub open spec fn digit_char(digit: nat) -> char {
    if digit == 0 {
        '0'
    } else if digit == 1 {
        '1'
    } else if digit == 2 {
        '2'
    } else if digit == 3 {
        '3'
    } else if digit == 4 {
        '4'
    } else if digit == 5 {
        '5'
    } else if digit == 6 {
        '6'
    } else if digit == 7 {
        '7'
    } else if digit == 8 {
        '8'
    } else {
        '9'
    }
}

/// The decimal numeral of `n`, without leading zeros.
pub open spec fn decimal(n: nat) -> Seq<char>
    decreases n,
{
    if n < 10 {
        seq![digit_char(n)]
    } else {
        decimal(n / 10).push(digit_char(n % 10))
    }
}

/// The address `address` and the port `port` as one text, a colon between
/// them.
pub open spec fn bind_address_of(address: Seq<char>, port: u32) -> Seq<char> {
    address + seq![':'] + decimal(port as nat)
}

/// The text of one decimal digit.
fn digit_text(digit: u32) -> (text: &'static str)
    requires
        digit < 10,
    ensures
        text@ == seq![digit_char(digit as nat)],
{
    proof {
        reveal_strlit("0");
        reveal_strlit("1");
        reveal_strlit("2");
        reveal_strlit("3");
        reveal_strlit("4");
        reveal_strlit("5");
        reveal_strlit("6");
        reveal_strlit("7");
        reveal_strlit("8");
        reveal_strlit("9");
    }
    let text = if digit == 0 {
        "0"
    } else if digit == 1 {
        "1"
    } else if digit == 2 {
        "2"
    } else if digit == 3 {
        "3"
    } else if digit == 4 {
        "4"
    } else if digit == 5 {
        "5"
    } else if digit == 6 {
        "6"
    } else if digit == 7 {
        "7"
    } else if digit == 8 {
        "8"
    } else {
        "9"
    };
    assert(text@ =~= seq![digit_char(digit as nat)]);
    text
}

/// Appends the decimal numeral of `n` to `text`.
fn append_decimal(text: &mut String, n: u32)
    ensures
        final(text)@ == old(text)@ + decimal(n as nat),
    decreases n,
{
    if n < 10 {
        text.append(digit_text(n));
    } else {
        append_decimal(text, n / 10);
        text.append(digit_text(n % 10));
        assert(text@ =~= old(text)@ + decimal(n as nat));
    }
}

impl App {
    /// A server that is to listen at `address`, on `port`.
    pub fn new(address: String, port: u32) -> (app: App)
        ensures
            app.address == address,
            app.port == port,
    {
        App { address, port }
    }

    /// The address to bind: the server's address and port, a colon between
    /// them.
    pub fn bind_address(&self) -> (text: String)
        ensures
            text@ == bind_address_of(self.address@, self.port),
    {
        proof {
            reveal_strlit(":");
        }
        let mut text = self.address.clone();
        text.append(":");
        assert(text@ =~= self.address@ + seq![':']);
        append_decimal(&mut text, self.port);
        text
    }
}

} // verus!
