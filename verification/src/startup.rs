//! Startup decisions: which port to serve on and which package's
//! documentation to open.
//!
//! Probing whether a port is free and querying workspace metadata are the
//! surrounding binary's work; it hands the plain results in and these
//! functions make the decisions the tool documents.

use vstd::prelude::*;

verus! {

/// The port the server prefers when it is free.
pub const PREFERRED_PORT: u16 = 4153;

/// The port to bind: the preferred port when it is free, otherwise the
/// ephemeral port the caller picked, otherwise nothing to bind to.
pub fn select_port(preferred_free: bool, fallback: Option<u16>) -> (r: Option<u16>)
    ensures
        preferred_free ==> r == Some(PREFERRED_PORT),
        !preferred_free ==> r == fallback,
{
    if preferred_free {
        Some(PREFERRED_PORT)
    } else {
        fallback
    }
}

/// The bytes of the sentinel meaning "open the root package".
pub open spec fn spec_crate_sentinel() -> Seq<u8> {
    seq![99u8, 114u8, 97u8, 116u8, 101u8]
}

/// A name as it appears in a served documentation path: every `-` of the
/// package name becomes `_`.
pub open spec fn spec_doc_name(name: Seq<u8>) -> Seq<u8> {
    name.map_values(|b: u8| if b == 45u8 { 95u8 } else { b })
}

/// Which package name the open target resolves to, before path mangling:
/// an explicit target other than the sentinel wins; the sentinel or no
/// target falls back to the root package, then to the first workspace
/// member; `None` means the workspace has neither.
pub open spec fn spec_chosen_target(
    open: Option<Seq<u8>>,
    root_package: Option<Seq<u8>>,
    first_member: Option<Seq<u8>>,
) -> Option<Seq<u8>> {
    if open matches Some(o) && o != spec_crate_sentinel() {
        open
    } else if root_package is Some {
        root_package
    } else {
        first_member
    }
}

/// Replace every `-` with `_`, as documentation paths spell crate names.
pub fn to_doc_name(name: Vec<u8>) -> (r: Vec<u8>)
    ensures
        r@ == spec_doc_name(name@),
{
    let mut r: Vec<u8> = Vec::new();
    let mut i: usize = 0;
    while i < name.len()
        invariant
            0 <= i <= name@.len(),
            r@.len() == i,
            forall|j: int| 0 <= j < i ==> r@[j] == (if name@[j] == 45u8 {
                95u8
            } else {
                name@[j]
            }),
        decreases name@.len() - i,
    {
        let b = name[i];
        if b == 45u8 {
            r.push(95u8);
        } else {
            r.push(b);
        }
        i += 1;
    }
    proof {
        assert(r@ =~= spec_doc_name(name@));
    }
    r
}

/// Whether `name` is the sentinel meaning "open the root package".
fn is_crate_sentinel(name: &Vec<u8>) -> (r: bool)
    ensures
        r == (name@ == spec_crate_sentinel()),
{
    if name.len() != 5 {
        proof {
            assert(name@ != spec_crate_sentinel());
        }
        return false;
    }
    let r = name[0] == 99u8 && name[1] == 114u8 && name[2] == 97u8 && name[3] == 116u8 && name[4]
        == 101u8;
    proof {
        if r {
            assert(name@ =~= spec_crate_sentinel());
        } else {
            assert(name@ != spec_crate_sentinel());
        }
    }
    r
}

/// Resolve the open target to the name under which the chosen package's
/// documentation is served (UTF-8 bytes of the name, `-` replaced by
/// `_`), or `None` when the workspace has neither a root package nor any
/// member — the fatal startup error the tool reports.
pub fn resolve_open_target(
    open: Option<Vec<u8>>,
    root_package: Option<Vec<u8>>,
    first_member: Option<Vec<u8>>,
) -> (r: Option<Vec<u8>>)
    ensures
        r is Some <==> spec_chosen_target(
            view_opt(open),
            view_opt(root_package),
            view_opt(first_member),
        ) is Some,
        r matches Some(name) ==> name@ == spec_doc_name(
            spec_chosen_target(view_opt(open), view_opt(root_package), view_opt(first_member))->0,
        ),
{
    let chosen: Option<Vec<u8>> = match open {
        Some(o) => {
            if !is_crate_sentinel(&o) {
                Some(o)
            } else {
                match root_package {
                    Some(p) => Some(p),
                    None => first_member,
                }
            }
        },
        None => match root_package {
            Some(p) => Some(p),
            None => first_member,
        },
    };
    match chosen {
        Some(name) => Some(to_doc_name(name)),
        None => None,
    }
}

/// The views of an optional byte string.
pub open spec fn view_opt(v: Option<Vec<u8>>) -> Option<Seq<u8>> {
    match v {
        Some(b) => Some(b@),
        None => None,
    }
}

/// The decimal digits of `n`, most significant first, no leading zeros.
pub open spec fn spec_decimal(n: nat) -> Seq<u8>
    decreases n,
{
    if n < 10 {
        seq![(48 + n) as u8]
    } else {
        spec_decimal(n / 10).push((48 + n % 10) as u8)
    }
}

/// `n` rendered as decimal digit bytes.
pub fn format_decimal(n: u16) -> (r: Vec<u8>)
    ensures
        r@ == spec_decimal(n as nat),
{
    let mut digits: Vec<u8> = Vec::new();
    let mut m: u16 = n;
    if m == 0 {
        digits.push(48);
        proof {
            assert(digits@ =~= spec_decimal(0));
        }
        return digits;
    }
    while m > 0
        invariant
            m > 0 ==> spec_decimal(n as nat) == spec_decimal(m as nat) + digits@.reverse(),
            m == 0 ==> spec_decimal(n as nat) == digits@.reverse(),
        decreases m,
    {
        let ghost prev = digits@;
        let ghost pm = m as nat;
        let d: u8 = 48 + (m % 10) as u8;
        digits.push(d);
        m = m / 10;
        proof {
            assert(digits@.reverse() =~= seq![d] + prev.reverse());
            if pm < 10 {
                assert(spec_decimal(pm) =~= seq![d]);
                assert(spec_decimal(n as nat) =~= digits@.reverse());
            } else {
                assert(spec_decimal(pm) == spec_decimal(pm / 10).push(d));
                assert(spec_decimal(pm / 10) + digits@.reverse() =~= spec_decimal(pm)
                    + prev.reverse());
                assert(spec_decimal(n as nat) =~= spec_decimal(m as nat) + digits@.reverse());
            }
        }
    }
    let mut r: Vec<u8> = Vec::new();
    let mut i: usize = digits.len();
    while i > 0
        invariant
            0 <= i <= digits@.len(),
            r@.len() == digits@.len() - i,
            forall|j: int| 0 <= j < r@.len() ==> r@[j] == digits@[digits@.len() - 1 - j],
        decreases i,
    {
        i = i - 1;
        r.push(digits[i]);
    }
    proof {
        assert(r@ =~= digits@.reverse());
    }
    r
}

/// The bytes of `http://127.0.0.1:`, the loopback origin the tool serves
/// on.
pub open spec fn spec_url_prefix() -> Seq<u8> {
    seq![
        104u8,
        116u8,
        116u8,
        112u8,
        58u8,
        47u8,
        47u8,
        49u8,
        50u8,
        55u8,
        46u8,
        48u8,
        46u8,
        48u8,
        46u8,
        49u8,
        58u8,
    ]
}

/// The address a viewer is pointed at: the loopback origin on `port`,
/// then the resolved documentation name.
pub open spec fn spec_local_docs_url(port: nat, root: Seq<u8>) -> Seq<u8> {
    spec_url_prefix() + spec_decimal(port) + seq![47u8] + root
}

/// Render the URL the tool announces and opens: loopback, the bound
/// port, and the documentation name of the package to show.
pub fn local_docs_url(port: u16, root: &Vec<u8>) -> (r: Vec<u8>)
    ensures
        r@ == spec_local_docs_url(port as nat, root@),
{
    let mut r: Vec<u8> = Vec::new();
    r.push(104);
    r.push(116);
    r.push(116);
    r.push(112);
    r.push(58);
    r.push(47);
    r.push(47);
    r.push(49);
    r.push(50);
    r.push(55);
    r.push(46);
    r.push(48);
    r.push(46);
    r.push(48);
    r.push(46);
    r.push(49);
    r.push(58);
    proof {
        assert(r@ =~= spec_url_prefix());
    }
    let mut digits = format_decimal(port);
    r.append(&mut digits);
    r.push(47);
    let ghost before_root = r@;
    let mut i: usize = 0;
    while i < root.len()
        invariant
            0 <= i <= root@.len(),
            r@ == before_root + root@.take(i as int),
            before_root == spec_url_prefix() + spec_decimal(port as nat) + seq![47u8],
        decreases root@.len() - i,
    {
        r.push(root[i]);
        i = i + 1;
        proof {
            assert(r@ =~= before_root + root@.take(i as int));
        }
    }
    proof {
        assert(root@.take(root@.len() as int) =~= root@);
        assert(r@ =~= spec_local_docs_url(port as nat, root@));
    }
    r
}

} // verus!
