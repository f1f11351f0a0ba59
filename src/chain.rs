use crate::error::StateManagerError;
use vstd::prelude::*;

verus! {

/// A supported blockchain network. The set is closed: every chain the
/// system knows of is one of these variants.
#[derive(Debug, Clone, Copy, PartialEq, Eq, Structural)]
pub enum Blockchain {
    Btc,
    Eth,
    Etc,
    TestBtc,
    Goerli,
}

/// ASCII upper case of one character: `a` to `z` become `A` to `Z`, every
/// other character is kept.
pub open spec fn upper_char(c: char) -> char {
    if 97 <= c as u32 && c as u32 <= 122 {
        ((c as u32 - 32) as u32) as char
    } else {
        c
    }
}

/// ASCII upper case of a string, character by character.
pub open spec fn ascii_upper(s: Seq<char>) -> Seq<char> {
    s.map_values(|c: char| upper_char(c))
}

impl Blockchain {
    /// The numeric id of the chain.
    pub open spec fn spec_id(self) -> u32 {
        match self {
            Blockchain::Btc => 1,
            Blockchain::Eth => 100,
            Blockchain::Etc => 101,
            Blockchain::TestBtc => 10003,
            Blockchain::Goerli => 10005,
        }
    }

    /// The canonical (upper case) code of the chain.
    pub open spec fn spec_code(self) -> Seq<char> {
        match self {
            Blockchain::Btc => seq!['B', 'T', 'C'],
            Blockchain::Eth => seq!['E', 'T', 'H'],
            Blockchain::Etc => seq!['E', 'T', 'C'],
            Blockchain::TestBtc => seq!['T', 'E', 'S', 'T', 'B', 'T', 'C'],
            Blockchain::Goerli => seq!['G', 'O', 'E', 'R', 'L', 'I'],
        }
    }
}

/// The chain whose numeric id is `id`, if any.
pub open spec fn chain_of_id(id: u32) -> Option<Blockchain> {
    if id == 1 {
        Some(Blockchain::Btc)
    } else if id == 100 {
        Some(Blockchain::Eth)
    } else if id == 101 {
        Some(Blockchain::Etc)
    } else if id == 10003 {
        Some(Blockchain::TestBtc)
    } else if id == 10005 {
        Some(Blockchain::Goerli)
    } else {
        None
    }
}

/// The chain whose canonical code is exactly `s`, if any.
pub open spec fn chain_of_code(s: Seq<char>) -> Option<Blockchain> {
    if s == Blockchain::Btc.spec_code() {
        Some(Blockchain::Btc)
    } else if s == Blockchain::Eth.spec_code() {
        Some(Blockchain::Eth)
    } else if s == Blockchain::Etc.spec_code() {
        Some(Blockchain::Etc)
    } else if s == Blockchain::TestBtc.spec_code() {
        Some(Blockchain::TestBtc)
    } else if s == Blockchain::Goerli.spec_code() {
        Some(Blockchain::Goerli)
    } else {
        None
    }
}

/// The numeric id that the code `s` stands for, the code being matched
/// without regard to ASCII case.
pub open spec fn id_for_code(s: Seq<char>) -> Option<u32> {
    match chain_of_code(ascii_upper(s)) {
        Some(c) => Some(c.spec_id()),
        None => None,
    }
}

/// The canonical code of the chain whose numeric id is `id`.
pub open spec fn code_for_id(id: u32) -> Option<Seq<char>> {
    match chain_of_id(id) {
        Some(c) => Some(c.spec_code()),
        None => None,
    }
}

/// A canonical code is already upper case.
proof fn lemma_code_is_upper(c: Blockchain)
    ensures
        ascii_upper(c.spec_code()) == c.spec_code(),
{
    assert(ascii_upper(c.spec_code()) =~= c.spec_code());
}

/// Each chain is found again from its canonical code.
proof fn lemma_chain_of_own_code(c: Blockchain)
    ensures
        chain_of_code(c.spec_code()) == Some(c),
{
    let btc = Blockchain::Btc.spec_code();
    let eth = Blockchain::Eth.spec_code();
    let etc = Blockchain::Etc.spec_code();
    let test = Blockchain::TestBtc.spec_code();
    let goerli = Blockchain::Goerli.spec_code();
    assert(btc[0] != eth[0]);
    assert(btc[0] != etc[0]);
    assert(btc.len() != test.len());
    assert(btc.len() != goerli.len());
    assert(eth[2] != etc[2]);
    assert(eth.len() != test.len());
    assert(eth.len() != goerli.len());
    assert(etc.len() != test.len());
    assert(etc.len() != goerli.len());
    assert(test.len() != goerli.len());
}

/// Every supported code, written in any mix of ASCII cases, stands for its
/// chain's id, and that id stands for the code in upper case.
pub proof fn lemma_known_code_lookup(c: Blockchain, s: Seq<char>)
    requires
        ascii_upper(s) == c.spec_code(),
    ensures
        id_for_code(s) == Some(c.spec_id()),
        code_for_id(c.spec_id()) == Some(ascii_upper(s)),
{
    lemma_chain_of_own_code(c);
}

/// A string that is none of the supported codes, in any ASCII case, is
/// rejected.
pub proof fn lemma_unknown_code_rejected(s: Seq<char>)
    requires
        forall|c: Blockchain| ascii_upper(s) != #[trigger] c.spec_code(),
    ensures
        id_for_code(s) is None,
{
    assert(ascii_upper(s) != Blockchain::Btc.spec_code());
    assert(ascii_upper(s) != Blockchain::Eth.spec_code());
    assert(ascii_upper(s) != Blockchain::Etc.spec_code());
    assert(ascii_upper(s) != Blockchain::TestBtc.spec_code());
    assert(ascii_upper(s) != Blockchain::Goerli.spec_code());
}

/// An id outside {1, 100, 101, 10003, 10005} is rejected.
pub proof fn lemma_unknown_id_rejected(id: u32)
    requires
        id != 1 && id != 100 && id != 101 && id != 10003 && id != 10005,
    ensures
        code_for_id(id) is None,
{
}

/// Turning a supported id into its code and the code back into an id gives
/// the id again.
pub proof fn lemma_id_round_trip(id: u32)
    requires
        code_for_id(id) is Some,
    ensures
        id_for_code(code_for_id(id)->0) == Some(id),
{
    let c = chain_of_id(id)->0;
    lemma_code_is_upper(c);
    lemma_chain_of_own_code(c);
}

/// Turning a supported code into its id and the id back into a code gives
/// the code in upper case.
pub proof fn lemma_code_round_trip(s: Seq<char>)
    requires
        id_for_code(s) is Some,
    ensures
        code_for_id(id_for_code(s)->0) == Some(ascii_upper(s)),
{
}

/// Relies on `str::to_ascii_uppercase`: `a` to `z` are mapped to `A` to `Z`,
/// every other character is left as it is.
#[verifier::external_body]
fn to_ascii_upper(s: &str) -> (r: String)
    ensures
        r@ == ascii_upper(s@),
{
    s.to_ascii_uppercase()
}

impl Blockchain {
    /// The numeric id of the chain.
    pub fn id(self) -> (r: u32)
        ensures
            r == self.spec_id(),
    {
        match self {
            Blockchain::Btc => 1,
            Blockchain::Eth => 100,
            Blockchain::Etc => 101,
            Blockchain::TestBtc => 10003,
            Blockchain::Goerli => 10005,
        }
    }

    /// The canonical (upper case) code of the chain.
    pub fn code(self) -> (r: String)
        ensures
            r@ == self.spec_code(),
    {
        match self {
            Blockchain::Btc => {
                proof {
                    reveal_strlit("BTC");
                }
                let r = String::from_str("BTC");
                assert(r@ =~= self.spec_code());
                r
            },
            Blockchain::Eth => {
                proof {
                    reveal_strlit("ETH");
                }
                let r = String::from_str("ETH");
                assert(r@ =~= self.spec_code());
                r
            },
            Blockchain::Etc => {
                proof {
                    reveal_strlit("ETC");
                }
                let r = String::from_str("ETC");
                assert(r@ =~= self.spec_code());
                r
            },
            Blockchain::TestBtc => {
                proof {
                    reveal_strlit("TESTBTC");
                }
                let r = String::from_str("TESTBTC");
                assert(r@ =~= self.spec_code());
                r
            },
            Blockchain::Goerli => {
                proof {
                    reveal_strlit("GOERLI");
                }
                let r = String::from_str("GOERLI");
                assert(r@ =~= self.spec_code());
                r
            },
        }
    }

    /// The chain with numeric id `id`; `None` for an id outside the set.
    pub fn from_id(id: u32) -> (r: Option<Blockchain>)
        ensures
            r == chain_of_id(id),
    {
        match id {
            1 => Some(Blockchain::Btc),
            100 => Some(Blockchain::Eth),
            101 => Some(Blockchain::Etc),
            10003 => Some(Blockchain::TestBtc),
            10005 => Some(Blockchain::Goerli),
            _ => None,
        }
    }

    /// The chain with code `code`, compared without regard to ASCII case;
    /// `None` for a code outside the set.
    pub fn from_code(code: &str) -> (r: Option<Blockchain>)
        ensures
            r == chain_of_code(ascii_upper(code@)),
    {
        let upper = to_ascii_upper(code);
        if upper == Blockchain::Btc.code() {
            Some(Blockchain::Btc)
        } else if upper == Blockchain::Eth.code() {
            Some(Blockchain::Eth)
        } else if upper == Blockchain::Etc.code() {
            Some(Blockchain::Etc)
        } else if upper == Blockchain::TestBtc.code() {
            Some(Blockchain::TestBtc)
        } else if upper == Blockchain::Goerli.code() {
            Some(Blockchain::Goerli)
        } else {
            None
        }
    }
}

/// The numeric id of the chain named by `code`, matched without regard to
/// ASCII case. Fails with `InvalidValue("Invalid blockchain code")` for any
/// other string.
pub fn blockchain_from_code(code: &str) -> (r: Result<u32, StateManagerError>)
    ensures
        match id_for_code(code@) {
            Some(id) => r == Ok::<u32, StateManagerError>(id),
            None => r is Err && r->Err_0.message() == "Invalid blockchain code"@,
        },
{
    match Blockchain::from_code(code) {
        Some(c) => Ok(c.id()),
        None => Err(StateManagerError::InvalidValue(String::from_str("Invalid blockchain code"))),
    }
}

/// The canonical code of the chain with numeric id `id`. Fails with
/// `InvalidValue("Invalid blockchain id")` for any other id.
pub fn blockchain_to_code(id: u32) -> (r: Result<String, StateManagerError>)
    ensures
        match code_for_id(id) {
            Some(code) => r is Ok && r->Ok_0@ == code,
            None => r is Err && r->Err_0.message() == "Invalid blockchain id"@,
        },
{
    match Blockchain::from_id(id) {
        Some(c) => Ok(c.code()),
        None => Err(StateManagerError::InvalidValue(String::from_str("Invalid blockchain id"))),
    }
}

} // verus!
