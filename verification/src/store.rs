use vstd::prelude::*;
use vstd::string::StringExecFns;

verus! {

/// The directory under which every hostname's on-disk record lives.
pub open spec fn cache_base() -> Seq<char> {
    ".odd_box_cache"@
}

/// The record directory of a hostname: one subdirectory per hostname under
/// the cache base.
pub open spec fn record_dir_path(host: Seq<char>) -> Seq<char> {
    cache_base() + "/"@ + host
}

/// The certificate file of a hostname's record: a PEM chain, leaf first.
pub open spec fn cert_file_path(host: Seq<char>) -> Seq<char> {
    record_dir_path(host) + "/cert.pem"@
}

/// The private-key file of a hostname's record: one PEM PKCS#8 key.
pub open spec fn key_file_path(host: Seq<char>) -> Seq<char> {
    record_dir_path(host) + "/key.pem"@
}

/// The on-disk layout of one hostname's record: its directory, certificate
/// file and key file. The layout is an operational contract: operators may
/// pre-place a certificate/key pair at these paths to pin a hostname's
/// material, and a pre-placed complete pair is never regenerated.
pub struct RecordPaths {
    pub dir: String,
    pub cert: String,
    pub key: String,
}

/// Builds the record paths of a hostname.
pub fn record_paths(host: &str) -> (r: RecordPaths)
    ensures
        r.dir@ == record_dir_path(host@),
        r.cert@ == cert_file_path(host@),
        r.key@ == key_file_path(host@),
{
    let mut dir = String::from_str(".odd_box_cache");
    dir.append("/");
    dir.append(host);
    let mut cert = String::from_str(dir.as_str());
    cert.append("/cert.pem");
    let mut key = String::from_str(dir.as_str());
    key.append("/key.pem");
    RecordPaths { dir, cert, key }
}

} // verus!
