use vstd::prelude::*;

verus! {

/// The credential and the state kept from one run to the next.
#[derive(Clone, Debug, PartialEq, Eq)]
pub struct Secret {
    pub cloudflare_api_key: String,
    /// The address last confirmed written to the provider.
    pub last_ip: Option<String>,
    /// Whether the state came from a file, and so is written back to it.
    pub is_file: bool,
}

/// The prefix that marks a credential argument as a path to a state file.
pub open spec fn file_header() -> Seq<char> {
    "file:"@
}

/// Whether `s` starts with the file prefix.
pub open spec fn spec_has_file_header(s: Seq<char>) -> bool {
    s.len() >= file_header().len() && s.subrange(0, file_header().len() as int) == file_header()
}

/// Whether `s` names a state file rather than holding a credential.
pub fn has_file_header(s: &str) -> (r: bool)
    ensures
        r == spec_has_file_header(s@),
{
    let header = "file:";
    proof {
        reveal_strlit("file:");
    }
    let n = s.unicode_len();
    if n < 5 {
        return false;
    }
    let mut i: usize = 0;
    while i < 5
        invariant
            i <= 5,
            n == s@.len(),
            n >= 5,
            header@ == file_header(),
            header@.len() == 5,
            forall|k: int| 0 <= k < i ==> s@[k] == header@[k],
        decreases 5 - i,
    {
        if s.get_char(i) != header.get_char(i) {
            assert(s@.subrange(0, 5)[i as int] != file_header()[i as int]);
            return false;
        }
        i = i + 1;
    }
    assert(s@.subrange(0, 5) =~= file_header());
    true
}

/// The path that follows the file prefix.
pub fn remove_file_header(string: &str) -> (r: &str)
    requires
        spec_has_file_header(string@),
    ensures
        r@ == string@.subrange(file_header().len() as int, string@.len() as int),
{
    proof {
        reveal_strlit("file:");
    }
    let n = string.unicode_len();
    string.substring_char(5, n)
}

/// Whether a run goes on: it stops only when the discovered address equals the
/// last address applied; with no address applied yet it always goes on.
pub fn should_proceed(discovered: &String, last_applied: &Option<String>) -> (r: bool)
    ensures
        r == !(last_applied matches Some(l) && l@ == discovered@),
{
    match last_applied {
        Some(l) => !(*l == *discovered),
        None => true,
    }
}

/// Whether every zone of a run was applied.
pub open spec fn all_applied(zone_ok: Seq<bool>) -> bool {
    forall|i: int| 0 <= i < zone_ok.len() ==> #[trigger] zone_ok[i]
}

impl Secret {
    /// A state for `cloudflare_api_key` with no address applied yet, not kept in a file.
    pub fn new(cloudflare_api_key: &str) -> (r: Secret)
        ensures
            r.cloudflare_api_key@ == cloudflare_api_key@,
            r.last_ip is None,
            !r.is_file,
    {
        Secret { cloudflare_api_key: String::from_str(cloudflare_api_key), last_ip: None, is_file: false }
    }

    /// Ends a run that applied `address` to zones with the outcomes `zone_ok`.
    /// The address is recorded only when every zone was applied, so that a
    /// failure is tried again by the next run; the result says whether the
    /// state changed and is kept in a file, and so must be written.
    pub fn finish_run(&mut self, address: &String, zone_ok: &Vec<bool>) -> (write: bool)
        ensures
            all_applied(zone_ok@) ==> final(self).last_ip == Some(*address),
            !all_applied(zone_ok@) ==> final(self).last_ip == old(self).last_ip,
            final(self).cloudflare_api_key == old(self).cloudflare_api_key,
            final(self).is_file == old(self).is_file,
            write == (all_applied(zone_ok@) && old(self).is_file),
    {
        let mut i: usize = 0;
        while i < zone_ok.len()
            invariant
                i <= zone_ok@.len(),
                forall|k: int| 0 <= k < i ==> #[trigger] zone_ok@[k],
            decreases zone_ok@.len() - i,
        {
            if !zone_ok[i] {
                return false;
            }
            i = i + 1;
        }
        self.last_ip = Some(address.clone());
        self.is_file
    }
}

impl Default for Secret {
    /// A state with a placeholder credential, to be filled in by hand.
    fn default() -> (r: Secret)
        ensures
            r.cloudflare_api_key@ == "API_KEY"@,
            r.last_ip is None,
            !r.is_file,
    {
        Secret { cloudflare_api_key: String::from_str("API_KEY"), last_ip: None, is_file: false }
    }
}

} // verus!
