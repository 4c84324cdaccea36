//! Service configuration: where the process listens and which store it
//! opens. Reading the environment belongs to the process bootstrap; this
//! module holds the values and the computations over them.

use vstd::prelude::*;
use vstd::string::StringExecFns;
use crate::text::{dec_seq, u16_to_string};

verus! {

/// The values the service is started with.
pub struct Config {
    pub database_url: String,
    pub port: u16,
    pub host: String,
}

impl Config {
    /// The socket address to bind: host, a colon, and the port in
    /// decimal.
    pub fn bind_address(&self) -> (r: String)
        ensures
            r@ == self.host@ + seq![':'] + dec_seq(self.port as int),
    {
        let mut s = self.host.clone();
        s.append(":");
        let p = u16_to_string(self.port);
        s.append(p.as_str());
        proof {
            reveal_strlit(":");
            assert(":"@ =~= seq![':']);
        }
        s
    }
}

} // verus!
