use vstd::prelude::*;
use crate::errors::CodecError;

verus! {

/// What rustls-pemfile's lenient certificate iterator yields for a PEM text:
/// the DER bytes of each CERTIFICATE section that decodes, and an empty item
/// where a recognized section of any kind is malformed.
pub uninterp spec fn cert_sections(text: Seq<u8>) -> Seq<Option<Seq<u8>>>;

/// What rustls-pemfile's PKCS#8 key iterator yields for a PEM text, collected
/// strictly: the DER bytes of every PRIVATE KEY section, or nothing when any
/// section is malformed.
pub uninterp spec fn pkcs8_keys(text: Seq<u8>) -> Option<Seq<Seq<u8>>>;

/// Relies on rustls_pemfile::certs: yields the DER bytes of each CERTIFICATE
/// section that decodes and an error where a recognized section of any kind
/// is malformed; well-formed sections of other kinds are skipped.
#[verifier::external_body]
fn pem_certificate_sections(text: &[u8]) -> (r: Vec<Option<Vec<u8>>>)
    ensures
        r.deep_view() == cert_sections(text@),
{
    let mut reader = std::io::Cursor::new(text);
    rustls_pemfile::certs(&mut reader)
        .map(|item| match item {
            Ok(cert) => Some(cert.as_ref().to_vec()),
            Err(_) => None,
        })
        .collect()
}

/// Relies on rustls_pemfile::pkcs8_private_keys: yields one item per PRIVATE
/// KEY section of the text or an error where a section is malformed; the
/// strict collection fails on the first error.
#[verifier::external_body]
fn pem_pkcs8_sections(text: &[u8]) -> (r: Option<Vec<Vec<u8>>>)
    ensures
        r.deep_view() == pkcs8_keys(text@),
{
    let mut reader = std::io::Cursor::new(text);
    let collected: Result<Vec<rustls::pki_types::PrivatePkcs8KeyDer<'static>>, std::io::Error> =
        rustls_pemfile::pkcs8_private_keys(&mut reader).collect();
    match collected {
        Ok(keys) => Some(keys.iter().map(|k| k.secret_pkcs8_der().to_vec()).collect()),
        Err(_) => None,
    }
}

/// The usable certificates among the parsed sections: malformed ones are
/// skipped, the order of the rest is kept.
pub open spec fn usable_certs(sections: Seq<Option<Seq<u8>>>) -> Seq<Seq<u8>>
    decreases sections.len(),
{
    if sections.len() == 0 {
        Seq::empty()
    } else {
        let rest = usable_certs(sections.drop_first());
        match sections[0] {
            Some(der) => seq![der] + rest,
            None => rest,
        }
    }
}

/// The chain that the lenient parse of a PEM text yields.
pub open spec fn lenient_chain(text: Seq<u8>) -> Seq<Seq<u8>> {
    usable_certs(cert_sections(text))
}

/// The outcome of parsing a PEM text for the single private key it must
/// hold: multiplicity is never silently resolved.
pub open spec fn key_outcome(text: Seq<u8>) -> Result<Seq<u8>, CodecError> {
    match pkcs8_keys(text) {
        None => Err(CodecError::MalformedPem),
        Some(keys) => if keys.len() == 0 {
            Err(CodecError::NoKeyFound)
        } else if keys.len() == 1 {
            Ok(keys[0])
        } else {
            Err(CodecError::AmbiguousKey)
        },
    }
}

proof fn lemma_usable_certs_push(sections: Seq<Option<Seq<u8>>>, last: Option<Seq<u8>>)
    ensures
        usable_certs(sections.push(last)) == usable_certs(sections) + (match last {
            Some(der) => seq![der],
            None => Seq::<Seq<u8>>::empty(),
        }),
    decreases sections.len(),
{
    reveal_with_fuel(usable_certs, 2);
    let tail = (match last {
        Some(der) => seq![der],
        None => Seq::<Seq<u8>>::empty(),
    });
    if sections.len() == 0 {
        assert(sections.push(last)[0] == last);
        assert(sections.push(last).drop_first() =~= Seq::empty());
        assert(usable_certs(sections.push(last)) =~= tail);
        assert(usable_certs(sections) + tail =~= tail);
    } else {
        assert(sections.push(last).drop_first() =~= sections.drop_first().push(last));
        lemma_usable_certs_push(sections.drop_first(), last);
        match sections[0] {
            Some(der) => {
                assert(seq![der] + (usable_certs(sections.drop_first()) + tail) =~= (seq![der]
                    + usable_certs(sections.drop_first())) + tail);
            },
            None => {},
        }
    }
}

/// Parses a PEM text into the DER certificates of its chain, leaf first.
/// Malformed sections are skipped rather than failing the parse, so callers
/// must check for an empty result themselves.
pub fn extract_cert_from_pem_str(text: &[u8]) -> (r: Vec<Vec<u8>>)
    ensures
        r.deep_view() == lenient_chain(text@),
{
    let mut sections = pem_certificate_sections(text);
    let ghost all = sections.deep_view();
    let mut chain: Vec<Vec<u8>> = Vec::new();
    let mut processed: usize = 0;
    let initial_count: usize = sections.len();
    proof {
        assert(all.len() == initial_count);
        assert(all.take(0) =~= Seq::empty());
        assert(all.skip(0) =~= all);
    }
    while sections.len() > 0
        invariant
            all == cert_sections(text@),
            all.len() <= usize::MAX,
            processed + sections.len() == all.len(),
            sections.deep_view() == all.skip(processed as int),
            chain.deep_view() == usable_certs(all.take(processed as int)),
        decreases sections.len(),
    {
        let ghost pre_sections = sections.deep_view();
        let ghost pre_vec = sections@;
        let ghost old_chain = chain.deep_view();
        let ghost cur = all[processed as int];
        let element = sections.remove(0);
        proof {
            assert(pre_sections[0] == cur);
            assert(element.deep_view() == pre_sections[0]);
            assert(sections@ == pre_vec.remove(0));
            assert forall|j: int| 0 <= j < sections.deep_view().len() implies sections.deep_view()[j]
                == all.skip(processed as int + 1)[j] by {
                assert(sections@[j] == pre_vec[j + 1]);
                assert(pre_sections[j + 1] == pre_vec[j + 1].deep_view());
                assert(all.skip(processed as int)[j + 1] == all[processed as int + 1 + j]);
            }
            assert(sections.deep_view() =~= all.skip(processed as int + 1));
        }
        match element {
            Some(der) => {
                let ghost der_bytes = der@;
                chain.push(der);
                proof {
                    assert(cur == Some(der_bytes));
                    assert(chain.deep_view() =~= old_chain.push(der_bytes));
                }
            },
            None => {},
        }
        proof {
            lemma_usable_certs_push(all.take(processed as int), cur);
            assert(all.take(processed as int + 1) =~= all.take(processed as int).push(cur));
            match cur {
                Some(der) => {
                    assert(old_chain.push(der) =~= old_chain + seq![der]);
                },
                None => {
                    assert(old_chain + Seq::<Seq<u8>>::empty() =~= old_chain);
                },
            }
        }
        processed = processed + 1;
    }
    proof {
        assert(all.take(processed as int) =~= all);
    }
    chain
}

/// Parses a PEM text for its single PKCS#8 private key: fails when the text
/// is malformed, holds no key, or holds more than one.
pub fn extract_priv_key_from_pem(text: &[u8]) -> (r: Result<Vec<u8>, CodecError>)
    ensures
        match key_outcome(text@) {
            Ok(key) => r matches Ok(v) && v@ == key,
            Err(e) => r matches Err(got) && got == e,
        },
{
    match pem_pkcs8_sections(text) {
        None => Err(CodecError::MalformedPem),
        Some(mut keys) => {
            if keys.len() == 0 {
                Err(CodecError::NoKeyFound)
            } else if keys.len() == 1 {
                let ghost pre_view = keys@;
                let ghost pre_deep = keys.deep_view();
                let key = keys.remove(0);
                proof {
                    assert(pre_deep[0] == pre_view[0]@);
                    assert(key@ == pre_deep[0]);
                }
                Ok(key)
            } else {
                Err(CodecError::AmbiguousKey)
            }
        },
    }
}

} // verus!
