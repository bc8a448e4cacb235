//! Parameters of the TLS handshake a secured channel negotiates.
//!
//! The values model the handshake the secured stream performs: an ordered
//! cipher list, protocol-version bounds, an optional elliptic-curve group
//! restriction, and the compatibility allowances constrained embedded
//! diagnostic peers require.  The TLS engine itself runs outside the
//! library; it receives these plain values, with the cipher and group
//! lists already joined into the colon-separated form the engine expects.

use vstd::prelude::*;

verus! {

/// The TLS protocol versions the handshake may bound itself with.
#[derive(Debug, Clone, Copy, PartialEq, Eq, Structural)]
pub enum TlsVersion {
    /// TLS 1.2.
    Tls1_2,
    /// TLS 1.3.
    Tls1_3,
}

/// Everything the handshake needs, supplied at connect time.
///
/// The defaults deliberately trade security for compatibility with
/// constrained diagnostic peers: certificate verification is off, because
/// peers are addressed by network topology rather than certificate
/// identity; legacy renegotiation is allowed, because some peers require
/// it; and the security level is lowered to admit the peer's cipher
/// suites.  These are deployment choices of this protocol, stated here as
/// configuration rather than hard-coded.
#[derive(Debug, Clone, PartialEq, Eq)]
pub struct TlsParameters {
    /// Cipher suites offered to the peer, in negotiation order.
    pub cipher_list: Vec<String>,
    /// Elliptic-curve groups to restrict the handshake to, if any.
    pub elliptic_curve_groups: Option<Vec<String>>,
    /// Lowest protocol version the handshake accepts.
    pub min_protocol_version: TlsVersion,
    /// Highest protocol version the handshake accepts.
    pub max_protocol_version: TlsVersion,
    /// Whether the peer's certificate is verified.
    pub verify_peer_certificate: bool,
    /// Whether legacy (insecure) renegotiation is allowed.
    pub allow_legacy_renegotiation: bool,
    /// The security level handed to the TLS engine.
    pub security_level: u8,
}

/// The colon-separated join of a list of names, in order.
pub open spec fn spec_join_colon(items: Seq<Seq<char>>) -> Seq<char>
    decreases items.len(),
{
    if items.len() == 0 {
        Seq::<char>::empty()
    } else if items.len() == 1 {
        items[0]
    } else {
        items[0] + seq![':'] + spec_join_colon(items.subrange(1, items.len() as int))
    }
}

/// Appending one more name extends the join by a colon and that name.
proof fn lemma_join_colon_push(items: Seq<Seq<char>>, x: Seq<char>)
    requires
        items.len() >= 1,
    ensures
        spec_join_colon(items.push(x)) == spec_join_colon(items) + seq![':'] + x,
    decreases items.len(),
{
    reveal_with_fuel(spec_join_colon, 3);
    let p = items.push(x);
    if items.len() == 1 {
        assert(p.subrange(1, 2) =~= seq![x]);
        assert(spec_join_colon(p) == items[0] + seq![':'] + x);
    } else {
        assert(p.subrange(1, p.len() as int) =~= items.subrange(1, items.len() as int).push(x));
        lemma_join_colon_push(items.subrange(1, items.len() as int), x);
        assert(items[0] + seq![':'] + (spec_join_colon(items.subrange(1, items.len() as int))
            + seq![':'] + x) =~= (items[0] + seq![':'] + spec_join_colon(
            items.subrange(1, items.len() as int),
        )) + seq![':'] + x);
    }
}

/// Join names with colons, the form the TLS engine takes cipher and
/// group lists in.
pub fn join_colon(items: &Vec<String>) -> (r: String)
    ensures
        r@ == spec_join_colon(items.deep_view()),
{
    let ghost views = items.deep_view();
    let mut r = String::new();
    let n = items.len();
    let mut i: usize = 0;
    while i < n
        invariant
            0 <= i <= n,
            n == items@.len(),
            views == items.deep_view(),
            i == 0 ==> r@ == Seq::<char>::empty(),
            i >= 1 ==> r@ == spec_join_colon(views.subrange(0, i as int)),
        decreases n - i,
    {
        proof {
            reveal_strlit(":");
        }
        if i > 0 {
            r.append(":");
        }
        r.append(items[i].as_str());
        proof {
            assert(":"@ =~= seq![':']);
            assert(views[i as int] == items@[i as int]@);
            if i == 0 {
                assert(views.subrange(0, 1) =~= seq![views[0]]);
                assert(spec_join_colon(seq![views[0]]) == views[0]);
            } else {
                let prefix = views.subrange(0, i as int);
                lemma_join_colon_push(prefix, views[i as int]);
                assert(views.subrange(0, (i + 1) as int) =~= prefix.push(views[i as int]));
            }
        }
        i += 1;
    }
    proof {
        if n > 0 {
            assert(views.subrange(0, n as int) =~= views);
        }
    }
    r
}

impl TlsParameters {
    /// The parameters the plain `connect` uses: the four cipher suites
    /// the embedded peer class negotiates, no group restriction, and the
    /// compatibility defaults described on the type.
    pub fn new_default() -> (r: TlsParameters)
        ensures
            r.cipher_list.deep_view() == seq![
                "ECDHE-RSA-AES128-GCM-SHA256"@,
                "ECDHE-RSA-AES256-GCM-SHA384"@,
                "ECDHE-ECDSA-AES128-GCM-SHA256"@,
                "ECDHE-ECDSA-AES256-GCM-SHA384"@,
            ],
            r.elliptic_curve_groups is None,
            r.min_protocol_version == TlsVersion::Tls1_2,
            r.max_protocol_version == TlsVersion::Tls1_3,
            !r.verify_peer_certificate,
            r.allow_legacy_renegotiation,
            r.security_level == 0,
    {
        let mut cipher_list: Vec<String> = Vec::new();
        cipher_list.push(String::from_str("ECDHE-RSA-AES128-GCM-SHA256"));
        cipher_list.push(String::from_str("ECDHE-RSA-AES256-GCM-SHA384"));
        cipher_list.push(String::from_str("ECDHE-ECDSA-AES128-GCM-SHA256"));
        cipher_list.push(String::from_str("ECDHE-ECDSA-AES256-GCM-SHA384"));
        let r = TlsParameters {
            cipher_list,
            elliptic_curve_groups: None,
            min_protocol_version: TlsVersion::Tls1_2,
            max_protocol_version: TlsVersion::Tls1_3,
            verify_peer_certificate: false,
            allow_legacy_renegotiation: true,
            security_level: 0,
        };
        proof {
            assert(r.cipher_list.deep_view() =~= seq![
                "ECDHE-RSA-AES128-GCM-SHA256"@,
                "ECDHE-RSA-AES256-GCM-SHA384"@,
                "ECDHE-ECDSA-AES128-GCM-SHA256"@,
                "ECDHE-ECDSA-AES256-GCM-SHA384"@,
            ]);
        }
        r
    }

    /// Parameters for a caller-chosen cipher list and optional group
    /// restriction, with the same compatibility defaults.
    pub fn with_ciphers(cipher_list: Vec<String>, elliptic_curve_groups: Option<Vec<String>>) -> (r:
        TlsParameters)
        ensures
            r.cipher_list == cipher_list,
            r.elliptic_curve_groups == elliptic_curve_groups,
            r.min_protocol_version == TlsVersion::Tls1_2,
            r.max_protocol_version == TlsVersion::Tls1_3,
            !r.verify_peer_certificate,
            r.allow_legacy_renegotiation,
            r.security_level == 0,
    {
        TlsParameters {
            cipher_list,
            elliptic_curve_groups,
            min_protocol_version: TlsVersion::Tls1_2,
            max_protocol_version: TlsVersion::Tls1_3,
            verify_peer_certificate: false,
            allow_legacy_renegotiation: true,
            security_level: 0,
        }
    }

    /// The cipher list in the colon-separated form the TLS engine takes.
    pub fn cipher_list_string(&self) -> (r: String)
        ensures
            r@ == spec_join_colon(self.cipher_list.deep_view()),
    {
        join_colon(&self.cipher_list)
    }

    /// The group list in the colon-separated form the TLS engine takes,
    /// when a restriction is configured.
    pub fn groups_string(&self) -> (r: Option<String>)
        ensures
            (r is Some) == (self.elliptic_curve_groups is Some),
            r matches Some(s) ==> (self.elliptic_curve_groups matches Some(g) && s@
                == spec_join_colon(g.deep_view())),
    {
        match &self.elliptic_curve_groups {
            Some(groups) => Some(join_colon(groups)),
            None => None,
        }
    }
}

} // verus!
