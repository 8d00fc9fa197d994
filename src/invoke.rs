//! The download tool's command line: who logs in, which item of which
//! application to fetch, then quit.

use vstd::prelude::*;
use crate::item::WorkshopItem;

verus! {

pub open spec fn digit_char(d: nat) -> char {
    if d == 0 {
        '0'
    } else if d == 1 {
        '1'
    } else if d == 2 {
        '2'
    } else if d == 3 {
        '3'
    } else if d == 4 {
        '4'
    } else if d == 5 {
        '5'
    } else if d == 6 {
        '6'
    } else if d == 7 {
        '7'
    } else if d == 8 {
        '8'
    } else {
        '9'
    }
}

/// `n` written in decimal, without sign or leading zeros.
pub open spec fn decimal_chars(n: nat) -> Seq<char>
    decreases n,
{
    if n < 10 {
        seq![digit_char(n)]
    } else {
        decimal_chars(n / 10).push(digit_char(n % 10))
    }
}

fn digit_str(d: u64) -> (r: &'static str)
    requires
        d < 10,
    ensures
        r@ == seq![digit_char(d as nat)],
{
    proof {
        reveal_strlit("0");
        reveal_strlit("1");
        reveal_strlit("2");
        reveal_strlit("3");
        reveal_strlit("4");
        reveal_strlit("5");
        reveal_strlit("6");
        reveal_strlit("7");
        reveal_strlit("8");
        reveal_strlit("9");
    }
    if d == 0 {
        "0"
    } else if d == 1 {
        "1"
    } else if d == 2 {
        "2"
    } else if d == 3 {
        "3"
    } else if d == 4 {
        "4"
    } else if d == 5 {
        "5"
    } else if d == 6 {
        "6"
    } else if d == 7 {
        "7"
    } else if d == 8 {
        "8"
    } else {
        "9"
    }
}

/// `n` in decimal.
pub fn decimal_string(n: u64) -> (r: String)
    ensures
        r@ == decimal_chars(n as nat),
    decreases n,
{
    if n < 10 {
        String::from_str(digit_str(n))
    } else {
        let head = decimal_string(n / 10);
        let r = head.concat(digit_str(n % 10));
        assert(r@ =~= decimal_chars(n as nat));
        r
    }
}

/// Who the tool logs in as.
#[derive(Debug, Clone, PartialEq, Eq)]
pub enum Login {
    Anonymous,
    Named(String),
}

impl Login {
    /// The name handed to the tool's login directive.
    pub open spec fn user(&self) -> Seq<char> {
        match self {
            Login::Anonymous => "anonymous"@,
            Login::Named(name) => name@,
        }
    }

    /// The login that a `--login` flag asks for: a missing or empty name
    /// means an anonymous login.
    pub fn from_flag(flag: Option<String>) -> (r: Login)
        ensures
            match flag {
                None => r == Login::Anonymous,
                Some(name) => if name@.len() == 0 {
                    r == Login::Anonymous
                } else {
                    r == Login::Named(name)
                },
            },
    {
        match flag {
            None => Login::Anonymous,
            Some(name) => if name.as_str().is_empty() {
                Login::Anonymous
            } else {
                Login::Named(name)
            },
        }
    }

    /// The name handed to the tool's login directive.
    pub fn user_name(&self) -> (r: String)
        ensures
            r@ == self.user(),
    {
        match self {
            Login::Anonymous => String::from_str("anonymous"),
            Login::Named(name) => name.clone(),
        }
    }
}

/// The tool's arguments for downloading item `item_id` of application
/// `app_id` as `user`.
pub open spec fn command_spec(user: Seq<char>, app_id: u64, item_id: u64) -> Seq<Seq<char>> {
    seq![
        "+login"@,
        user,
        "+workshop_download_item"@,
        decimal_chars(app_id as nat),
        decimal_chars(item_id as nat),
        "+quit"@,
    ]
}

/// The same arguments as one line, separated by single spaces.
pub open spec fn command_line_spec(user: Seq<char>, app_id: u64, item_id: u64) -> Seq<char> {
    "+login "@ + user + " +workshop_download_item "@ + decimal_chars(app_id as nat) + " "@
        + decimal_chars(item_id as nat) + " +quit"@
}

pub open spec fn views(v: Seq<String>) -> Seq<Seq<char>> {
    v.map_values(|a: String| a@)
}

/// The arguments that make the tool log in, download one item and quit.
pub fn command_args(login: &Login, app_id: u64, item_id: u64) -> (r: Vec<String>)
    ensures
        views(r@) == command_spec(login.user(), app_id, item_id),
{
    let mut args: Vec<String> = Vec::new();
    args.push(String::from_str("+login"));
    args.push(login.user_name());
    args.push(String::from_str("+workshop_download_item"));
    args.push(decimal_string(app_id));
    args.push(decimal_string(item_id));
    args.push(String::from_str("+quit"));
    assert(views(args@) =~= command_spec(login.user(), app_id, item_id));
    args
}

/// The arguments of `command_args` as one line, for display.
pub fn command_line(login: &Login, app_id: u64, item_id: u64) -> (r: String)
    ensures
        r@ == command_line_spec(login.user(), app_id, item_id),
{
    let line = String::from_str("+login ");
    let line = line.concat(login.user_name().as_str());
    let line = line.concat(" +workshop_download_item ");
    let line = line.concat(decimal_string(app_id).as_str());
    let line = line.concat(" ");
    let line = line.concat(decimal_string(item_id).as_str());
    let line = line.concat(" +quit");
    line
}

/// Why one item was not downloaded.
#[derive(Debug, Clone, Copy, PartialEq, Eq)]
pub enum DownloadError {
    /// No application could be found that owns the item.
    ResolutionFailed { item_id: u64 },
    /// The tool ended with this exit code, or without one (it could not be
    /// started, or a signal ended it).
    ToolFailed { item_id: u64, code: Option<i32> },
}

/// The tool's arguments for downloading `item`, or why there are none.
pub fn download_args(item: &WorkshopItem, login: &Login) -> (r: Result<Vec<String>, DownloadError>)
    ensures
        match item.app_id {
            None => r == Err::<Vec<String>, DownloadError>(
                DownloadError::ResolutionFailed { item_id: item.item_id },
            ),
            Some(app_id) => r matches Ok(args) && views(args@) == command_spec(
                login.user(),
                app_id,
                item.item_id,
            ),
        },
{
    match item.app_id {
        None => Err(DownloadError::ResolutionFailed { item_id: item.item_id }),
        Some(app_id) => Ok(command_args(login, app_id, item.item_id)),
    }
}

/// What the tool's exit code says of the download of `item_id`: only an
/// exit code of zero is success.
pub fn tool_result(item_id: u64, code: Option<i32>) -> (r: Result<(), DownloadError>)
    ensures
        r is Ok <==> code == Some(0i32),
        r is Err ==> r == Err::<(), DownloadError>(DownloadError::ToolFailed { item_id, code }),
{
    match code {
        Some(0) => Ok(()),
        _ => Err(DownloadError::ToolFailed { item_id, code }),
    }
}

} // verus!
