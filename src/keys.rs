//! The closed set of secret names that the vault recognises.
use vstd::prelude::*;

use crate::text::text_eq;

verus! {

/// How many secret names are recognised.
pub const NUM_SECRET_KEYS: usize = 21;

/// The recognised name at position `i`, in the order in which they are listed.
pub open spec fn secret_key(i: int) -> Seq<char> {
    if i == 0 {
        "GROQ_API_KEY"@
    } else if i == 1 {
        "OPENROUTER_API_KEY"@
    } else if i == 2 {
        "FRED_API_KEY"@
    } else if i == 3 {
        "EIA_API_KEY"@
    } else if i == 4 {
        "CLOUDFLARE_API_TOKEN"@
    } else if i == 5 {
        "ACLED_ACCESS_TOKEN"@
    } else if i == 6 {
        "URLHAUS_AUTH_KEY"@
    } else if i == 7 {
        "OTX_API_KEY"@
    } else if i == 8 {
        "ABUSEIPDB_API_KEY"@
    } else if i == 9 {
        "WINGBITS_API_KEY"@
    } else if i == 10 {
        "WS_RELAY_URL"@
    } else if i == 11 {
        "VITE_OPENSKY_RELAY_URL"@
    } else if i == 12 {
        "OPENSKY_CLIENT_ID"@
    } else if i == 13 {
        "OPENSKY_CLIENT_SECRET"@
    } else if i == 14 {
        "AISSTREAM_API_KEY"@
    } else if i == 15 {
        "VITE_WS_RELAY_URL"@
    } else if i == 16 {
        "FINNHUB_API_KEY"@
    } else if i == 17 {
        "NASA_FIRMS_API_KEY"@
    } else if i == 18 {
        "OLLAMA_API_URL"@
    } else if i == 19 {
        "OLLAMA_MODEL"@
    } else if i == 20 {
        "WORLDMONITOR_API_KEY"@
    } else {
        Seq::empty()
    }
}

/// The first position at or after `i` that holds `name`.
pub open spec fn key_index_from(name: Seq<char>, i: int) -> Option<int>
    decreases NUM_SECRET_KEYS - i,
{
    if i < 0 || i >= NUM_SECRET_KEYS {
        None
    } else if secret_key(i) == name {
        Some(i)
    } else {
        key_index_from(name, i + 1)
    }
}

/// The position of `name` in the list, if it is recognised.
pub open spec fn key_index(name: Seq<char>) -> Option<int> {
    key_index_from(name, 0)
}

/// `name` is one of the recognised secret names.
pub open spec fn is_supported_key(name: Seq<char>) -> bool {
    key_index(name) is Some
}

pub proof fn lemma_key_index_from(name: Seq<char>, i: int)
    requires
        0 <= i <= NUM_SECRET_KEYS,
    ensures
        match key_index_from(name, i) {
            Some(j) => i <= j < NUM_SECRET_KEYS && secret_key(j) == name,
            None => forall|j: int| i <= j < NUM_SECRET_KEYS ==> secret_key(j) != name,
        },
    decreases NUM_SECRET_KEYS - i,
{
    if i < NUM_SECRET_KEYS && secret_key(i) != name {
        lemma_key_index_from(name, i + 1);
    }
}

/// The name at position `i` of the list.
pub fn supported_secret_key(i: usize) -> (r: &'static str)
    requires
        i < NUM_SECRET_KEYS,
    ensures
        r@ == secret_key(i as int),
{
    match i {
        0 => "GROQ_API_KEY",
        1 => "OPENROUTER_API_KEY",
        2 => "FRED_API_KEY",
        3 => "EIA_API_KEY",
        4 => "CLOUDFLARE_API_TOKEN",
        5 => "ACLED_ACCESS_TOKEN",
        6 => "URLHAUS_AUTH_KEY",
        7 => "OTX_API_KEY",
        8 => "ABUSEIPDB_API_KEY",
        9 => "WINGBITS_API_KEY",
        10 => "WS_RELAY_URL",
        11 => "VITE_OPENSKY_RELAY_URL",
        12 => "OPENSKY_CLIENT_ID",
        13 => "OPENSKY_CLIENT_SECRET",
        14 => "AISSTREAM_API_KEY",
        15 => "VITE_WS_RELAY_URL",
        16 => "FINNHUB_API_KEY",
        17 => "NASA_FIRMS_API_KEY",
        18 => "OLLAMA_API_URL",
        19 => "OLLAMA_MODEL",
        _ => "WORLDMONITOR_API_KEY",
    }
}

/// Every recognised name, in order.
pub fn list_supported_secret_keys() -> (r: Vec<String>)
    ensures
        r@.len() == NUM_SECRET_KEYS,
        forall|i: int| 0 <= i < NUM_SECRET_KEYS ==> #[trigger] r@[i]@ == secret_key(i),
{
    let mut r: Vec<String> = Vec::new();
    let mut i: usize = 0;
    while i < NUM_SECRET_KEYS
        invariant
            i <= NUM_SECRET_KEYS,
            r@.len() == i,
            forall|j: int| 0 <= j < i ==> #[trigger] r@[j]@ == secret_key(j),
        decreases NUM_SECRET_KEYS - i,
    {
        r.push(supported_secret_key(i).to_owned());
        i = i + 1;
    }
    r
}

/// The position of `name` among the recognised names, or `None` when it is
/// not one of them.
pub fn find_secret_key(name: &str) -> (r: Option<usize>)
    ensures
        match r {
            Some(i) => i < NUM_SECRET_KEYS && key_index(name@) == Some(i as int),
            None => key_index(name@) is None,
        },
{
    let mut i: usize = 0;
    while i < NUM_SECRET_KEYS
        invariant
            i <= NUM_SECRET_KEYS,
            key_index(name@) == key_index_from(name@, i as int),
        decreases NUM_SECRET_KEYS - i,
    {
        if text_eq(supported_secret_key(i), name) {
            return Some(i);
        }
        i = i + 1;
    }
    None
}

/// Each name stands at one position only.
pub proof fn lemma_key_at_own_index(i: int)
    requires
        0 <= i < NUM_SECRET_KEYS,
    ensures
        key_index(secret_key(i)) == Some(i),
{
    reveal_strlit("GROQ_API_KEY");
    reveal_strlit("OPENROUTER_API_KEY");
    reveal_strlit("FRED_API_KEY");
    reveal_strlit("EIA_API_KEY");
    reveal_strlit("CLOUDFLARE_API_TOKEN");
    reveal_strlit("ACLED_ACCESS_TOKEN");
    reveal_strlit("URLHAUS_AUTH_KEY");
    reveal_strlit("OTX_API_KEY");
    reveal_strlit("ABUSEIPDB_API_KEY");
    reveal_strlit("WINGBITS_API_KEY");
    reveal_strlit("WS_RELAY_URL");
    reveal_strlit("VITE_OPENSKY_RELAY_URL");
    reveal_strlit("OPENSKY_CLIENT_ID");
    reveal_strlit("OPENSKY_CLIENT_SECRET");
    reveal_strlit("AISSTREAM_API_KEY");
    reveal_strlit("VITE_WS_RELAY_URL");
    reveal_strlit("FINNHUB_API_KEY");
    reveal_strlit("NASA_FIRMS_API_KEY");
    reveal_strlit("OLLAMA_API_URL");
    reveal_strlit("OLLAMA_MODEL");
    reveal_strlit("WORLDMONITOR_API_KEY");
    if i == 0 {
    } else if i == 1 {
        assert(secret_key(0).len() != secret_key(1).len());
    } else if i == 2 {
        assert(secret_key(0)[0] != secret_key(2)[0]);
        assert(secret_key(1).len() != secret_key(2).len());
    } else if i == 3 {
        assert(secret_key(0).len() != secret_key(3).len());
        assert(secret_key(1).len() != secret_key(3).len());
        assert(secret_key(2).len() != secret_key(3).len());
    } else if i == 4 {
        assert(secret_key(0).len() != secret_key(4).len());
        assert(secret_key(1).len() != secret_key(4).len());
        assert(secret_key(2).len() != secret_key(4).len());
        assert(secret_key(3).len() != secret_key(4).len());
    } else if i == 5 {
        assert(secret_key(0).len() != secret_key(5).len());
        assert(secret_key(1)[0] != secret_key(5)[0]);
        assert(secret_key(2).len() != secret_key(5).len());
        assert(secret_key(3).len() != secret_key(5).len());
        assert(secret_key(4).len() != secret_key(5).len());
    } else if i == 6 {
        assert(secret_key(0).len() != secret_key(6).len());
        assert(secret_key(1).len() != secret_key(6).len());
        assert(secret_key(2).len() != secret_key(6).len());
        assert(secret_key(3).len() != secret_key(6).len());
        assert(secret_key(4).len() != secret_key(6).len());
        assert(secret_key(5).len() != secret_key(6).len());
    } else if i == 7 {
        assert(secret_key(0).len() != secret_key(7).len());
        assert(secret_key(1).len() != secret_key(7).len());
        assert(secret_key(2).len() != secret_key(7).len());
        assert(secret_key(3)[0] != secret_key(7)[0]);
        assert(secret_key(4).len() != secret_key(7).len());
        assert(secret_key(5).len() != secret_key(7).len());
        assert(secret_key(6).len() != secret_key(7).len());
    } else if i == 8 {
        assert(secret_key(0).len() != secret_key(8).len());
        assert(secret_key(1).len() != secret_key(8).len());
        assert(secret_key(2).len() != secret_key(8).len());
        assert(secret_key(3).len() != secret_key(8).len());
        assert(secret_key(4).len() != secret_key(8).len());
        assert(secret_key(5).len() != secret_key(8).len());
        assert(secret_key(6).len() != secret_key(8).len());
        assert(secret_key(7).len() != secret_key(8).len());
    } else if i == 9 {
        assert(secret_key(0).len() != secret_key(9).len());
        assert(secret_key(1).len() != secret_key(9).len());
        assert(secret_key(2).len() != secret_key(9).len());
        assert(secret_key(3).len() != secret_key(9).len());
        assert(secret_key(4).len() != secret_key(9).len());
        assert(secret_key(5).len() != secret_key(9).len());
        assert(secret_key(6)[0] != secret_key(9)[0]);
        assert(secret_key(7).len() != secret_key(9).len());
        assert(secret_key(8).len() != secret_key(9).len());
    } else if i == 10 {
        assert(secret_key(0)[0] != secret_key(10)[0]);
        assert(secret_key(1).len() != secret_key(10).len());
        assert(secret_key(2)[0] != secret_key(10)[0]);
        assert(secret_key(3).len() != secret_key(10).len());
        assert(secret_key(4).len() != secret_key(10).len());
        assert(secret_key(5).len() != secret_key(10).len());
        assert(secret_key(6).len() != secret_key(10).len());
        assert(secret_key(7).len() != secret_key(10).len());
        assert(secret_key(8).len() != secret_key(10).len());
        assert(secret_key(9).len() != secret_key(10).len());
    } else if i == 11 {
        assert(secret_key(0).len() != secret_key(11).len());
        assert(secret_key(1).len() != secret_key(11).len());
        assert(secret_key(2).len() != secret_key(11).len());
        assert(secret_key(3).len() != secret_key(11).len());
        assert(secret_key(4).len() != secret_key(11).len());
        assert(secret_key(5).len() != secret_key(11).len());
        assert(secret_key(6).len() != secret_key(11).len());
        assert(secret_key(7).len() != secret_key(11).len());
        assert(secret_key(8).len() != secret_key(11).len());
        assert(secret_key(9).len() != secret_key(11).len());
        assert(secret_key(10).len() != secret_key(11).len());
    } else if i == 12 {
        assert(secret_key(0).len() != secret_key(12).len());
        assert(secret_key(1).len() != secret_key(12).len());
        assert(secret_key(2).len() != secret_key(12).len());
        assert(secret_key(3).len() != secret_key(12).len());
        assert(secret_key(4).len() != secret_key(12).len());
        assert(secret_key(5).len() != secret_key(12).len());
        assert(secret_key(6).len() != secret_key(12).len());
        assert(secret_key(7).len() != secret_key(12).len());
        assert(secret_key(8)[0] != secret_key(12)[0]);
        assert(secret_key(9).len() != secret_key(12).len());
        assert(secret_key(10).len() != secret_key(12).len());
        assert(secret_key(11).len() != secret_key(12).len());
    } else if i == 13 {
        assert(secret_key(0).len() != secret_key(13).len());
        assert(secret_key(1).len() != secret_key(13).len());
        assert(secret_key(2).len() != secret_key(13).len());
        assert(secret_key(3).len() != secret_key(13).len());
        assert(secret_key(4).len() != secret_key(13).len());
        assert(secret_key(5).len() != secret_key(13).len());
        assert(secret_key(6).len() != secret_key(13).len());
        assert(secret_key(7).len() != secret_key(13).len());
        assert(secret_key(8).len() != secret_key(13).len());
        assert(secret_key(9).len() != secret_key(13).len());
        assert(secret_key(10).len() != secret_key(13).len());
        assert(secret_key(11).len() != secret_key(13).len());
        assert(secret_key(12).len() != secret_key(13).len());
    } else if i == 14 {
        assert(secret_key(0).len() != secret_key(14).len());
        assert(secret_key(1).len() != secret_key(14).len());
        assert(secret_key(2).len() != secret_key(14).len());
        assert(secret_key(3).len() != secret_key(14).len());
        assert(secret_key(4).len() != secret_key(14).len());
        assert(secret_key(5).len() != secret_key(14).len());
        assert(secret_key(6).len() != secret_key(14).len());
        assert(secret_key(7).len() != secret_key(14).len());
        assert(secret_key(8)[1] != secret_key(14)[1]);
        assert(secret_key(9).len() != secret_key(14).len());
        assert(secret_key(10).len() != secret_key(14).len());
        assert(secret_key(11).len() != secret_key(14).len());
        assert(secret_key(12)[0] != secret_key(14)[0]);
        assert(secret_key(13).len() != secret_key(14).len());
    } else if i == 15 {
        assert(secret_key(0).len() != secret_key(15).len());
        assert(secret_key(1).len() != secret_key(15).len());
        assert(secret_key(2).len() != secret_key(15).len());
        assert(secret_key(3).len() != secret_key(15).len());
        assert(secret_key(4).len() != secret_key(15).len());
        assert(secret_key(5).len() != secret_key(15).len());
        assert(secret_key(6).len() != secret_key(15).len());
        assert(secret_key(7).len() != secret_key(15).len());
        assert(secret_key(8)[0] != secret_key(15)[0]);
        assert(secret_key(9).len() != secret_key(15).len());
        assert(secret_key(10).len() != secret_key(15).len());
        assert(secret_key(11).len() != secret_key(15).len());
        assert(secret_key(12)[0] != secret_key(15)[0]);
        assert(secret_key(13).len() != secret_key(15).len());
        assert(secret_key(14)[0] != secret_key(15)[0]);
    } else if i == 16 {
        assert(secret_key(0).len() != secret_key(16).len());
        assert(secret_key(1).len() != secret_key(16).len());
        assert(secret_key(2).len() != secret_key(16).len());
        assert(secret_key(3).len() != secret_key(16).len());
        assert(secret_key(4).len() != secret_key(16).len());
        assert(secret_key(5).len() != secret_key(16).len());
        assert(secret_key(6).len() != secret_key(16).len());
        assert(secret_key(7).len() != secret_key(16).len());
        assert(secret_key(8).len() != secret_key(16).len());
        assert(secret_key(9).len() != secret_key(16).len());
        assert(secret_key(10).len() != secret_key(16).len());
        assert(secret_key(11).len() != secret_key(16).len());
        assert(secret_key(12).len() != secret_key(16).len());
        assert(secret_key(13).len() != secret_key(16).len());
        assert(secret_key(14).len() != secret_key(16).len());
        assert(secret_key(15).len() != secret_key(16).len());
    } else if i == 17 {
        assert(secret_key(0).len() != secret_key(17).len());
        assert(secret_key(1)[0] != secret_key(17)[0]);
        assert(secret_key(2).len() != secret_key(17).len());
        assert(secret_key(3).len() != secret_key(17).len());
        assert(secret_key(4).len() != secret_key(17).len());
        assert(secret_key(5)[0] != secret_key(17)[0]);
        assert(secret_key(6).len() != secret_key(17).len());
        assert(secret_key(7).len() != secret_key(17).len());
        assert(secret_key(8).len() != secret_key(17).len());
        assert(secret_key(9).len() != secret_key(17).len());
        assert(secret_key(10).len() != secret_key(17).len());
        assert(secret_key(11).len() != secret_key(17).len());
        assert(secret_key(12).len() != secret_key(17).len());
        assert(secret_key(13).len() != secret_key(17).len());
        assert(secret_key(14).len() != secret_key(17).len());
        assert(secret_key(15).len() != secret_key(17).len());
        assert(secret_key(16).len() != secret_key(17).len());
    } else if i == 18 {
        assert(secret_key(0).len() != secret_key(18).len());
        assert(secret_key(1).len() != secret_key(18).len());
        assert(secret_key(2).len() != secret_key(18).len());
        assert(secret_key(3).len() != secret_key(18).len());
        assert(secret_key(4).len() != secret_key(18).len());
        assert(secret_key(5).len() != secret_key(18).len());
        assert(secret_key(6).len() != secret_key(18).len());
        assert(secret_key(7).len() != secret_key(18).len());
        assert(secret_key(8).len() != secret_key(18).len());
        assert(secret_key(9).len() != secret_key(18).len());
        assert(secret_key(10).len() != secret_key(18).len());
        assert(secret_key(11).len() != secret_key(18).len());
        assert(secret_key(12).len() != secret_key(18).len());
        assert(secret_key(13).len() != secret_key(18).len());
        assert(secret_key(14).len() != secret_key(18).len());
        assert(secret_key(15).len() != secret_key(18).len());
        assert(secret_key(16).len() != secret_key(18).len());
        assert(secret_key(17).len() != secret_key(18).len());
    } else if i == 19 {
        assert(secret_key(0)[0] != secret_key(19)[0]);
        assert(secret_key(1).len() != secret_key(19).len());
        assert(secret_key(2)[0] != secret_key(19)[0]);
        assert(secret_key(3).len() != secret_key(19).len());
        assert(secret_key(4).len() != secret_key(19).len());
        assert(secret_key(5).len() != secret_key(19).len());
        assert(secret_key(6).len() != secret_key(19).len());
        assert(secret_key(7).len() != secret_key(19).len());
        assert(secret_key(8).len() != secret_key(19).len());
        assert(secret_key(9).len() != secret_key(19).len());
        assert(secret_key(10)[0] != secret_key(19)[0]);
        assert(secret_key(11).len() != secret_key(19).len());
        assert(secret_key(12).len() != secret_key(19).len());
        assert(secret_key(13).len() != secret_key(19).len());
        assert(secret_key(14).len() != secret_key(19).len());
        assert(secret_key(15).len() != secret_key(19).len());
        assert(secret_key(16).len() != secret_key(19).len());
        assert(secret_key(17).len() != secret_key(19).len());
        assert(secret_key(18).len() != secret_key(19).len());
    } else if i == 20 {
        assert(secret_key(0).len() != secret_key(20).len());
        assert(secret_key(1).len() != secret_key(20).len());
        assert(secret_key(2).len() != secret_key(20).len());
        assert(secret_key(3).len() != secret_key(20).len());
        assert(secret_key(4)[0] != secret_key(20)[0]);
        assert(secret_key(5).len() != secret_key(20).len());
        assert(secret_key(6).len() != secret_key(20).len());
        assert(secret_key(7).len() != secret_key(20).len());
        assert(secret_key(8).len() != secret_key(20).len());
        assert(secret_key(9).len() != secret_key(20).len());
        assert(secret_key(10).len() != secret_key(20).len());
        assert(secret_key(11).len() != secret_key(20).len());
        assert(secret_key(12).len() != secret_key(20).len());
        assert(secret_key(13).len() != secret_key(20).len());
        assert(secret_key(14).len() != secret_key(20).len());
        assert(secret_key(15).len() != secret_key(20).len());
        assert(secret_key(16).len() != secret_key(20).len());
        assert(secret_key(17).len() != secret_key(20).len());
        assert(secret_key(18).len() != secret_key(20).len());
        assert(secret_key(19).len() != secret_key(20).len());
    }
    lemma_first_index(secret_key(i), i, 0);
}

proof fn lemma_first_index(name: Seq<char>, i: int, j: int)
    requires
        0 <= j <= i < NUM_SECRET_KEYS,
        secret_key(i) == name,
        forall|k: int| j <= k < i ==> secret_key(k) != name,
    ensures
        key_index_from(name, j) == Some(i),
    decreases i - j,
{
    if j < i {
        lemma_first_index(name, i, j + 1);
    }
}

} // verus!
