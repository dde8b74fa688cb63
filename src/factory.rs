//! The protocols whose events can be decoded, and the parsers made for them.
use crate::assembler::Pubkey;
use crate::codec::string_of;
use vstd::prelude::*;
use vstd::string::StringExecFns;

verus! {

/// A supported on-chain protocol.
#[derive(Debug, Clone, Copy, PartialEq, Eq, Hash, Structural)]
pub enum Protocol {
    PumpSwap,
    PumpFun,
    Bonk,
    RaydiumCpmm,
}

/// The address of a protocol's program.
pub open spec fn program_id_of(p: Protocol) -> Pubkey {
    match p {
        Protocol::PumpSwap => Pubkey {
            bytes: [
                12, 20, 222, 252, 130, 94, 198, 118, 148, 37, 8, 24, 187, 101, 64, 101, 244, 41, 141,
                49, 86, 213, 113, 180, 212, 248, 9, 12, 24, 233, 168, 99,
            ],
        },
        Protocol::PumpFun => Pubkey {
            bytes: [
                77, 174, 247, 221, 101, 48, 146, 245, 153, 171, 49, 227, 143, 42, 3, 164, 178, 235,
                219, 165, 21, 173, 75, 203, 210, 70, 13, 182, 118, 108, 233, 176,
            ],
        },
        Protocol::Bonk => Pubkey {
            bytes: [
                5, 4, 59, 149, 77, 202, 38, 225, 239, 145, 181, 44, 79, 143, 137, 175, 138, 111, 90,
                200, 198, 33, 86, 241, 113, 207, 15, 33, 172, 81, 201, 34,
            ],
        },
        Protocol::RaydiumCpmm => Pubkey {
            bytes: [
                169, 42, 90, 139, 79, 41, 89, 82, 132, 37, 80, 170, 147, 253, 91, 149, 181, 172, 230,
                168, 235, 146, 12, 147, 148, 46, 67, 105, 12, 32, 236, 115,
            ],
        },
    }
}

/// A protocol's display name.
pub open spec fn protocol_name(p: Protocol) -> Seq<char> {
    match p {
        Protocol::PumpSwap => "PumpSwap"@,
        Protocol::PumpFun => "PumpFun"@,
        Protocol::Bonk => "Bonk"@,
        Protocol::RaydiumCpmm => "RaydiumCpmm"@,
    }
}

/// The protocol named by an already lower-cased text, if any.
pub open spec fn protocol_by_lower_name(s: Seq<char>) -> Option<Protocol> {
    if s == "pumpswap"@ {
        Some(Protocol::PumpSwap)
    } else if s == "pumpfun"@ {
        Some(Protocol::PumpFun)
    } else if s == "bonk"@ {
        Some(Protocol::Bonk)
    } else if s == "raydiumcpmm"@ {
        Some(Protocol::RaydiumCpmm)
    } else {
        None
    }
}

/// The lower-case form of a text, as Unicode defines it.
pub uninterp spec fn lower_of(s: Seq<char>) -> Seq<char>;

/// Relies on `str::to_lowercase`: the result depends on the characters alone.
#[verifier::external_body]
fn lowercase(s: &str) -> (r: String)
    ensures
        r@ == lower_of(s@),
{
    s.to_lowercase()
}

impl Protocol {
    /// The program addresses whose instructions belong to this protocol.
    pub fn get_program_id(&self) -> (r: Vec<Pubkey>)
        ensures
            r@ == seq![program_id_of(*self)],
    {
        let key = match self {
            Protocol::PumpSwap => Pubkey {
                bytes: [
                    12, 20, 222, 252, 130, 94, 198, 118, 148, 37, 8, 24, 187, 101, 64, 101, 244, 41,
                    141, 49, 86, 213, 113, 180, 212, 248, 9, 12, 24, 233, 168, 99,
                ],
            },
            Protocol::PumpFun => Pubkey {
                bytes: [
                    77, 174, 247, 221, 101, 48, 146, 245, 153, 171, 49, 227, 143, 42, 3, 164, 178,
                    235, 219, 165, 21, 173, 75, 203, 210, 70, 13, 182, 118, 108, 233, 176,
                ],
            },
            Protocol::Bonk => Pubkey {
                bytes: [
                    5, 4, 59, 149, 77, 202, 38, 225, 239, 145, 181, 44, 79, 143, 137, 175, 138, 111,
                    90, 200, 198, 33, 86, 241, 113, 207, 15, 33, 172, 81, 201, 34,
                ],
            },
            Protocol::RaydiumCpmm => Pubkey {
                bytes: [
                    169, 42, 90, 139, 79, 41, 89, 82, 132, 37, 80, 170, 147, 253, 91, 149, 181, 172,
                    230, 168, 235, 146, 12, 147, 148, 46, 67, 105, 12, 32, 236, 115,
                ],
            },
        };
        assert(key.bytes@ =~= program_id_of(*self).bytes@);
        let mut r: Vec<Pubkey> = Vec::new();
        r.push(key);
        assert(r@ =~= seq![program_id_of(*self)]);
        r
    }

    /// The protocol's display name.
    pub fn name(&self) -> (r: String)
        ensures
            r@ == protocol_name(*self),
    {
        match self {
            Protocol::PumpSwap => string_of("PumpSwap"),
            Protocol::PumpFun => string_of("PumpFun"),
            Protocol::Bonk => string_of("Bonk"),
            Protocol::RaydiumCpmm => string_of("RaydiumCpmm"),
        }
    }

    /// The protocol whose lower-cased name is `lower`; an error message
    /// naming `name` otherwise.
    pub fn from_lower_name(lower: &str, name: &str) -> (r: Result<Protocol, String>)
        ensures
            protocol_by_lower_name(lower@) matches Some(p) ==> r == Ok::<Protocol, String>(p),
            protocol_by_lower_name(lower@) is None ==> (r matches Err(m) && m@ == "Unsupported protocol: "@ + name@),
    {
        let s = string_of(lower);
        if s == string_of("pumpswap") {
            Ok(Protocol::PumpSwap)
        } else if s == string_of("pumpfun") {
            Ok(Protocol::PumpFun)
        } else if s == string_of("bonk") {
            Ok(Protocol::Bonk)
        } else if s == string_of("raydiumcpmm") {
            Ok(Protocol::RaydiumCpmm)
        } else {
            let mut m = string_of("Unsupported protocol: ");
            m.append(name);
            Err(m)
        }
    }

    /// Parses a protocol name, ignoring case.
    pub fn from_name(s: &str) -> (r: Result<Protocol, String>)
        ensures
            protocol_by_lower_name(lower_of(s@)) matches Some(p) ==> r == Ok::<Protocol, String>(p),
            protocol_by_lower_name(lower_of(s@)) is None ==> (r matches Err(m) && m@ == "Unsupported protocol: "@ + s@),
    {
        let lower = lowercase(s);
        Protocol::from_lower_name(lower.as_str(), s)
    }
}

/// A decoder for one protocol's events; the decoding itself lives with the
/// event ingestion, outside this crate.
#[derive(Debug, Clone, Copy, PartialEq, Eq)]
pub struct EventParser {
    pub protocol: Protocol,
}

/// The protocols this build decodes.
pub open spec fn supported() -> Seq<Protocol> {
    seq![Protocol::PumpSwap]
}

/// Makes event parsers for protocols.
pub struct EventParserFactory;

impl EventParserFactory {
    /// The parser for `protocol`.
    pub fn create_parser(protocol: Protocol) -> (r: EventParser)
        ensures
            r.protocol == protocol,
    {
        EventParser { protocol }
    }

    /// One parser for each supported protocol, in the same order.
    pub fn create_all_parsers() -> (r: Vec<EventParser>)
        ensures
            r@.len() == supported().len(),
            forall|i: int| 0 <= i < r@.len() ==> (#[trigger] r@[i]).protocol == supported()[i],
    {
        let protocols = Self::supported_protocols();
        let mut r: Vec<EventParser> = Vec::new();
        let mut i: usize = 0;
        while i < protocols.len()
            invariant
                protocols@ == supported(),
                i <= protocols@.len(),
                r@.len() == i,
                forall|j: int| 0 <= j < i ==> (#[trigger] r@[j]).protocol == supported()[j],
            decreases protocols@.len() - i,
        {
            r.push(Self::create_parser(protocols[i]));
            i = i + 1;
        }
        r
    }

    /// The supported protocols.
    pub fn supported_protocols() -> (r: Vec<Protocol>)
        ensures
            r@ == supported(),
    {
        let mut r: Vec<Protocol> = Vec::new();
        r.push(Protocol::PumpSwap);
        assert(r@ =~= supported());
        r
    }

    /// Whether `protocol` is supported.
    pub fn is_supported(protocol: &Protocol) -> (r: bool)
        ensures
            r == supported().contains(*protocol),
    {
        let protocols = Self::supported_protocols();
        let mut i: usize = 0;
        while i < protocols.len()
            invariant
                protocols@ == supported(),
                i <= protocols@.len(),
                forall|j: int| 0 <= j < i ==> protocols@[j] != *protocol,
            decreases protocols@.len() - i,
        {
            if protocols[i] == *protocol {
                assert(supported()[i as int] == *protocol);
                return true;
            }
            i = i + 1;
        }
        false
    }
}

} // verus!
