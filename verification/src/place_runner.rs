//! The run configuration and the command line it dispatches the host
//! application with. Locating the installation, installing the plugin
//! artifact and spawning the process are plain I/O and live in the shell;
//! the argument list they hand the process is computed and pinned down
//! here.

use vstd::prelude::*;

verus! {

/// Configuration of one coordinated run.
pub struct PlaceRunner {
    pub port: u16,
    pub script: String,
    pub place_file: Option<String>,
    pub universe_id: Option<u64>,
    pub place_id: Option<u64>,
    pub creator_id: Option<u64>,
    pub creator_type: Option<u8>,
    pub no_launch: bool,
    pub oneshot: bool,
    pub team_test: bool,
}

/// The character for one decimal digit.
pub open spec fn spec_digit(d: nat) -> char {
    if d == 0 {
        '0'
    } else if d == 1 {
        '1'
    } else if d == 2 {
        '2'
    } else if d == 3 {
        '3'
    } else if d == 4 {
        '4'
    } else if d == 5 {
        '5'
    } else if d == 6 {
        '6'
    } else if d == 7 {
        '7'
    } else if d == 8 {
        '8'
    } else {
        '9'
    }
}

/// The decimal digits of `n`, most significant first, with no leading
/// zeros (and a single `'0'` for zero).
pub open spec fn spec_decimal(n: nat) -> Seq<char>
    decreases n,
{
    if n < 10 {
        seq![spec_digit(n)]
    } else {
        spec_decimal(n / 10).push(spec_digit(n % 10))
    }
}

/// Relies on `u64`'s `Display` (via `ToString`): an unsigned integer is
/// formatted as its decimal digits, most significant first, with no sign,
/// no separators and no leading zeros.
#[verifier::external_body]
fn u64_to_string(n: u64) -> (r: String)
    ensures
        r@ == spec_decimal(n as nat),
{
    n.to_string()
}

impl PlaceRunner {
    /// The argument list the host application is launched with: a team-test
    /// run names the task, the place and the universe; a server run adds
    /// the creator, the creator type and a zero test-player count.
    pub fn studio_args(&self) -> (r: Vec<String>)
        requires
            self.place_id is Some,
            self.universe_id is Some,
            !self.team_test ==> self.creator_id is Some && self.creator_type is Some,
        ensures
            self.team_test ==> {
                &&& r@.len() == 6
                &&& r@[0]@ == "-task"@
                &&& r@[1]@ == "StartTeamTest"@
                &&& r@[2]@ == "-placeId"@
                &&& r@[3]@ == spec_decimal(self.place_id.unwrap() as nat)
                &&& r@[4]@ == "-universeId"@
                &&& r@[5]@ == spec_decimal(self.universe_id.unwrap() as nat)
            },
            !self.team_test ==> {
                &&& r@.len() == 12
                &&& r@[0]@ == "-task"@
                &&& r@[1]@ == "StartServer"@
                &&& r@[2]@ == "-placeId"@
                &&& r@[3]@ == spec_decimal(self.place_id.unwrap() as nat)
                &&& r@[4]@ == "-universeId"@
                &&& r@[5]@ == spec_decimal(self.universe_id.unwrap() as nat)
                &&& r@[6]@ == "-creatorId"@
                &&& r@[7]@ == spec_decimal(self.creator_id.unwrap() as nat)
                &&& r@[8]@ == "-creatorType"@
                &&& r@[9]@ == spec_decimal(self.creator_type.unwrap() as nat)
                &&& r@[10]@ == "-numtestserverplayersuponstartup"@
                &&& r@[11]@ == "0"@
            },
    {
        let mut args: Vec<String> = Vec::new();
        let place_id = match &self.place_id {
            Some(v) => *v,
            None => 0,
        };
        let universe_id = match &self.universe_id {
            Some(v) => *v,
            None => 0,
        };
        if self.team_test {
            args.push(String::from_str("-task"));
            args.push(String::from_str("StartTeamTest"));
            args.push(String::from_str("-placeId"));
            args.push(u64_to_string(place_id));
            args.push(String::from_str("-universeId"));
            args.push(u64_to_string(universe_id));
        } else {
            let creator_id = match &self.creator_id {
                Some(v) => *v,
                None => 0,
            };
            let creator_type = match &self.creator_type {
                Some(v) => *v,
                None => 0,
            };
            args.push(String::from_str("-task"));
            args.push(String::from_str("StartServer"));
            args.push(String::from_str("-placeId"));
            args.push(u64_to_string(place_id));
            args.push(String::from_str("-universeId"));
            args.push(u64_to_string(universe_id));
            args.push(String::from_str("-creatorId"));
            args.push(u64_to_string(creator_id));
            args.push(String::from_str("-creatorType"));
            args.push(u64_to_string(creator_type as u64));
            args.push(String::from_str("-numtestserverplayersuponstartup"));
            args.push(String::from_str("0"));
        }
        args
    }
}

} // verus!
