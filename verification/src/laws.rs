//! Stated laws of the codec, proved over the specification-level parsers.

use vstd::prelude::*;

use crate::errors::ErrorView;
use crate::xml_base::ChildWrite;
use crate::model::{BomView, LicenseIdentifierView, SpecVersion};
use crate::xml_doc::{bom_of_acc, p_bom_children, BomAccView};
use crate::xml_io::{EvNameView, EvView};
use crate::xml_license::p_license_fields;

verus! {

/// Mutual exclusivity of a license's identifier, first half: once one of
/// `id` and `name` has been read, a second occurrence of either — in any
/// combination and wherever it stands among the element's remaining
/// children — fails the parse with a duplicate-element error naming
/// `license`.
pub proof fn lemma_license_second_identifier_is_duplicate(
    evs: Seq<EvView>,
    i: int,
    open: EvNameView,
    ident: LicenseIdentifierView,
    text: Option<crate::model::AttachedTextView>,
    url: Option<Seq<char>>,
    nm: EvNameView,
    attrs: Seq<(Seq<char>, Seq<char>)>,
)
    requires
        0 <= i < evs.len(),
        evs[i] == (EvView::Start { name: nm, attrs }),
        nm.local == "id"@ || nm.local == "name"@,
    ensures
        p_license_fields(evs, i, open, Some(ident), text, url) == Err::<
            (crate::model::LicenseView, int),
            ErrorView,
        >(ErrorView::DuplicateElement { element: "license"@ }),
{
}

/// Mutual exclusivity of a license's identifier, second half: reaching the
/// element's matching end tag with neither `id` nor `name` read fails the
/// parse with a required-data error naming the missing alternatives.
pub proof fn lemma_license_missing_identifier_is_required(
    evs: Seq<EvView>,
    i: int,
    open: EvNameView,
    text: Option<crate::model::AttachedTextView>,
    url: Option<Seq<char>>,
)
    requires
        0 <= i < evs.len(),
        evs[i] == (EvView::End { name: open }),
    ensures
        p_license_fields(evs, i, open, None, text, url) == Err::<
            (crate::model::LicenseView, int),
            ErrorView,
        >(
            ErrorView::RequiredDataMissing {
                required_field: "id or name"@,
                element: "license"@,
            },
        ),
{
}

/// Whether `local` is a section name the `bom` root dispatches on.
pub open spec fn is_bom_section_name(local: Seq<char>) -> bool {
    ||| local == "metadata"@
    ||| local == "components"@
    ||| local == "services"@
    ||| local == "externalReferences"@
    ||| local == "dependencies"@
    ||| local == "compositions"@
    ||| local == "properties"@
    ||| local == "vulnerabilities"@
    ||| local == "signature"@
}

/// Lax validation at the document level, one child at a time: an element
/// among the children of `bom` whose name no section matches — a foreign
/// producer extension — is consumed down to its matching end tag and
/// contributes nothing; the read continues at the next sibling with the
/// sections unchanged.
pub proof fn lemma_bom_foreign_child_is_skipped(
    evs: Seq<EvView>,
    i: int,
    open: EvNameView,
    version: u32,
    serial_number: Option<Seq<char>>,
    acc: BomAccView,
    sig_ok: bool,
    nm: EvNameView,
    attrs: Seq<(Seq<char>, Seq<char>)>,
    j: int,
)
    requires
        0 <= i < evs.len(),
        evs[i] == (EvView::Start { name: nm, attrs }),
        !is_bom_section_name(nm.local),
        crate::xml_base::p_skip(evs, i + 1, seq![nm]) == Ok::<int, ErrorView>(j),
        i < j <= evs.len(),
    ensures
        p_bom_children(evs, i, open, version, serial_number, acc, sig_ok) == p_bom_children(
            evs,
            j,
            open,
            version,
            serial_number,
            acc,
            sig_ok,
        ),
{
}

/// Whether an event is the start of a `vulnerabilities` section.
pub open spec fn is_vulnerabilities_start(e: EvView) -> bool {
    match e {
        EvView::Start { name, attrs } => name.local == "vulnerabilities"@,
        _ => false,
    }
}

/// Absent stays absent: while the remaining events hold no `vulnerabilities`
/// start element, a read that has not seen the section cannot produce one —
/// the model distinguishes an absent section from an empty one.
#[verifier::rlimit(100)]
pub proof fn lemma_absent_vulnerabilities_stay_absent(
    evs: Seq<EvView>,
    i: int,
    open: EvNameView,
    version: u32,
    serial_number: Option<Seq<char>>,
    acc: BomAccView,
    sig_ok: bool,
)
    requires
        acc.vulnerabilities is None,
        forall|k: int| i <= k < evs.len() ==> !is_vulnerabilities_start(#[trigger] evs[k]),
    ensures
        p_bom_children(evs, i, open, version, serial_number, acc, sig_ok) matches Ok(b)
            ==> b.vulnerabilities is None,
    decreases evs.len() - i,
{
    if 0 <= i < evs.len() {
        match evs[i] {
            EvView::Start { name: nm, attrs } => {
                assert(!is_vulnerabilities_start(evs[i]));
                if nm.local == "metadata"@ {
                    match crate::xml_meta::p_metadata_fields(evs, i + 1, nm, None, None, None,
                    None, None, None, None, None, sig_ok) {
                        Ok((m, j)) => {
                            if i < j <= evs.len() {
                                lemma_absent_vulnerabilities_stay_absent(evs, j, open, version,
                                serial_number, BomAccView { metadata: Some(m), ..acc }, sig_ok);
                            }
                        },
                        Err(e) => {},
                    }
                } else if nm.local == "components"@ {
                    match crate::xml_comp::p_components_items(evs, i + 1, nm, Seq::empty(),
                    sig_ok) {
                        Ok((s, j)) => {
                            if i < j <= evs.len() {
                                lemma_absent_vulnerabilities_stay_absent(evs, j, open, version,
                                serial_number, BomAccView { components: Some(s), ..acc },
                                sig_ok);
                            }
                        },
                        Err(e) => {},
                    }
                } else if nm.local == "services"@ {
                    match crate::xml_service::p_services_items(evs, i + 1, nm, Seq::empty(),
                    sig_ok) {
                        Ok((s, j)) => {
                            if i < j <= evs.len() {
                                lemma_absent_vulnerabilities_stay_absent(evs, j, open, version,
                                serial_number, BomAccView { services: Some(s), ..acc }, sig_ok);
                            }
                        },
                        Err(e) => {},
                    }
                } else if nm.local == "externalReferences"@ {
                    match crate::xml_list::p_list::<crate::model::ExternalReference>(evs, i + 1,
                    nm, "reference"@, Seq::empty(), sig_ok) {
                        Ok((s, j)) => {
                            if i < j <= evs.len() {
                                lemma_absent_vulnerabilities_stay_absent(evs, j, open, version,
                                serial_number, BomAccView { external_references: Some(s), ..acc },
                                sig_ok);
                            }
                        },
                        Err(e) => {},
                    }
                } else if nm.local == "dependencies"@ {
                    match crate::xml_list::p_list::<crate::model::Dependency>(evs, i + 1, nm,
                    "dependency"@, Seq::empty(), sig_ok) {
                        Ok((s, j)) => {
                            if i < j <= evs.len() {
                                lemma_absent_vulnerabilities_stay_absent(evs, j, open, version,
                                serial_number, BomAccView { dependencies: Some(s), ..acc },
                                sig_ok);
                            }
                        },
                        Err(e) => {},
                    }
                } else if nm.local == "compositions"@ {
                    match crate::xml_list::p_list::<crate::model::Composition>(evs, i + 1, nm,
                    "composition"@, Seq::empty(), sig_ok) {
                        Ok((s, j)) => {
                            if i < j <= evs.len() {
                                lemma_absent_vulnerabilities_stay_absent(evs, j, open, version,
                                serial_number, BomAccView { compositions: Some(s), ..acc },
                                sig_ok);
                            }
                        },
                        Err(e) => {},
                    }
                } else if nm.local == "properties"@ {
                    match crate::xml_list::p_list::<crate::model::Property>(evs, i + 1, nm,
                    "property"@, Seq::empty(), sig_ok) {
                        Ok((s, j)) => {
                            if i < j <= evs.len() {
                                lemma_absent_vulnerabilities_stay_absent(evs, j, open, version,
                                serial_number, BomAccView { properties: Some(s), ..acc }, sig_ok);
                            }
                        },
                        Err(e) => {},
                    }
                } else if nm.local == "signature"@ && sig_ok {
                    match crate::xml_simple::p_signature_fields(evs, i + 1, nm, None, None) {
                        Ok((s, j)) => {
                            if i < j <= evs.len() {
                                lemma_absent_vulnerabilities_stay_absent(evs, j, open, version,
                                serial_number, BomAccView { signature: Some(s), ..acc }, sig_ok);
                            }
                        },
                        Err(e) => {},
                    }
                } else {
                    match crate::xml_base::p_skip(evs, i + 1, seq![nm]) {
                        Ok(j) => {
                            if i < j <= evs.len() {
                                lemma_absent_vulnerabilities_stay_absent(evs, j, open, version,
                                serial_number, acc, sig_ok);
                            }
                        },
                        Err(e) => {},
                    }
                }
            },
            _ => {},
        }
    }
}

} // verus!

verus! {

/// A present-but-empty `components` child reads as a present empty
/// sequence, distinct from an absent section: meeting `<components/>` among
/// the children of `bom` sets the section to empty and continues at the
/// next sibling.
pub proof fn lemma_empty_components_child_reads_as_present_empty(
    evs: Seq<EvView>,
    i: int,
    open: EvNameView,
    version: u32,
    serial_number: Option<Seq<char>>,
    acc: BomAccView,
    sig_ok: bool,
    nm: EvNameView,
    attrs: Seq<(Seq<char>, Seq<char>)>,
)
    requires
        0 <= i,
        i + 1 < evs.len(),
        evs[i] == (EvView::Start { name: nm, attrs }),
        nm.local == "components"@,
        evs[i + 1] == (EvView::End { name: nm }),
    ensures
        p_bom_children(evs, i, open, version, serial_number, acc, sig_ok) == p_bom_children(
            evs,
            i + 2,
            open,
            version,
            serial_number,
            BomAccView { components: Some(Seq::empty()), ..acc },
            sig_ok,
        ),
{
    reveal_strlit("metadata");
    reveal_strlit("components");
    assert("metadata"@.len() == 8);
    assert("components"@.len() == 10);
    assert("metadata"@ != "components"@);
    reveal(crate::xml_comp::p_components_items);
    reveal(crate::xml_comp::p_component_fields);
    assert(crate::xml_comp::p_components_items(evs, i + 1, nm, Seq::empty(), sig_ok) == Ok::<
        (Seq<crate::model::ComponentView>, int),
        ErrorView,
    >((Seq::empty(), i + 2)));
}

} // verus!

verus! {

/// Lax validation inside a `license` element, one child at a time: an
/// element that is none of `id`, `name`, `text` and `url` is consumed down
/// to its matching end tag and contributes nothing.
pub proof fn lemma_license_foreign_child_is_skipped(
    evs: Seq<EvView>,
    i: int,
    open: EvNameView,
    ident: Option<LicenseIdentifierView>,
    text: Option<crate::model::AttachedTextView>,
    url: Option<Seq<char>>,
    nm: EvNameView,
    attrs: Seq<(Seq<char>, Seq<char>)>,
    j: int,
)
    requires
        0 <= i < evs.len(),
        evs[i] == (EvView::Start { name: nm, attrs }),
        nm.local != "id"@,
        nm.local != "name"@,
        nm.local != "text"@,
        nm.local != "url"@,
        crate::xml_base::p_skip(evs, i + 1, seq![nm]) == Ok::<int, ErrorView>(j),
        i < j <= evs.len(),
    ensures
        p_license_fields(evs, i, open, ident, text, url) == p_license_fields(
            evs,
            j,
            open,
            ident,
            text,
            url,
        ),
{
}

} // verus!

verus! {

proof fn lemma_window_index(evs: Seq<EvView>, i: int, w: Seq<EvView>, k: int)
    requires
        0 <= i,
        i + w.len() <= evs.len(),
        evs.subrange(i, i + w.len() as int) == w,
        0 <= k < w.len(),
    ensures
        evs[i + k] == w[k],
{
    assert(evs.subrange(i, i + w.len() as int)[k] == evs[i + k]);
}

proof fn lemma_window_within(evs: Seq<EvView>, i: int, w: Seq<EvView>, a: int, b: int)
    requires
        0 <= i,
        i + w.len() <= evs.len(),
        evs.subrange(i, i + w.len() as int) == w,
        0 <= a <= b <= w.len(),
    ensures
        evs.subrange(i + a, i + b) == w.subrange(a, b),
{
    assert forall|k: int| 0 <= k < b - a implies evs.subrange(i + a, i + b)[k] == w.subrange(
        a,
        b,
    )[k] by {
        lemma_window_index(evs, i, w, a + k);
    }
    assert(evs.subrange(i + a, i + b) =~= w.subrange(a, b));
}

proof fn lemma_text_tag_inverse(evs: Seq<EvView>, i: int, tag: Seq<char>, t: Seq<char>)
    requires
        0 <= i,
        i + 3 <= evs.len(),
        evs.subrange(i, i + 3) == crate::xml_base::w_text_tag(tag, t),
    ensures
        crate::xml_base::p_text_tag(evs, i + 1, crate::xml_base::noname(tag)) == Ok::<
            (Seq<char>, int),
            ErrorView,
        >((t, i + 3)),
{
    let w = crate::xml_base::w_text_tag(tag, t);
    lemma_window_index(evs, i, w, 1);
    lemma_window_index(evs, i, w, 2);
    assert(evs[i + 1] == EvView::Text(t));
    assert(evs[i + 2] == crate::xml_base::ex(tag));
}

proof fn lemma_attached_text_inverse(
    evs: Seq<EvView>,
    i: int,
    tag: Seq<char>,
    t: crate::model::AttachedTextView,
)
    requires
        0 <= i,
        i + 3 <= evs.len(),
        evs.subrange(i, i + 3) == crate::xml_license::w_attached_text(tag, t),
    ensures
        crate::xml_license::p_attached_text(
            evs,
            i + 1,
            crate::xml_base::noname(tag),
            crate::xml_license::attached_text_attrs(t),
        ) == Ok::<(crate::model::AttachedTextView, int), ErrorView>((t, i + 3)),
{
    reveal_strlit("content-type");
    reveal_strlit("encoding");
    assert("content-type"@.len() == 12);
    assert("encoding"@.len() == 8);
    assert("content-type"@ != "encoding"@);
    let w = crate::xml_license::w_attached_text(tag, t);
    lemma_window_index(evs, i, w, 1);
    lemma_window_index(evs, i, w, 2);
    assert(evs[i + 1] == EvView::Text(t.content));
    assert(evs[i + 2] == crate::xml_base::ex(tag));
    let at = crate::xml_license::attached_text_attrs(t);
    let cpair = ("content-type"@, t.content_type->0);
    let epair = ("encoding"@, t.encoding->0);
    match t.content_type {
        Some(ct) => {
            match t.encoding {
                Some(enc) => {
                    assert(at =~= seq![cpair, epair]);
                    assert(at.subrange(1, at.len() as int) =~= seq![epair]);
                    assert(crate::xml_base::spec_attr(at.subrange(1, at.len() as int),
                    "encoding"@) == Some(enc));
                    assert(crate::xml_base::spec_attr(at, "content-type"@) == Some(ct));
                    assert(crate::xml_base::spec_attr(at, "encoding"@) == Some(enc));
                },
                None => {
                    assert(at =~= seq![cpair]);
                    assert(at.subrange(1, at.len() as int) =~= Seq::<
                        (Seq<char>, Seq<char>),
                    >::empty());
                    assert(crate::xml_base::spec_attr(at.subrange(1, at.len() as int),
                    "encoding"@) is None);
                    assert(crate::xml_base::spec_attr(at, "content-type"@) == Some(ct));
                    assert(crate::xml_base::spec_attr(at, "encoding"@) is None);
                },
            }
        },
        None => {
            match t.encoding {
                Some(enc) => {
                    assert(at =~= seq![epair]);
                    assert(at.subrange(1, at.len() as int) =~= Seq::<
                        (Seq<char>, Seq<char>),
                    >::empty());
                    assert(crate::xml_base::spec_attr(at.subrange(1, at.len() as int),
                    "content-type"@) is None);
                    assert(crate::xml_base::spec_attr(at, "encoding"@) == Some(enc));
                    assert(crate::xml_base::spec_attr(at, "content-type"@) is None);
                },
                None => {
                    assert(at =~= Seq::<(Seq<char>, Seq<char>)>::empty());
                    assert(crate::xml_base::spec_attr(at, "content-type"@) is None);
                    assert(crate::xml_base::spec_attr(at, "encoding"@) is None);
                },
            }
        },
    }
}

/// Write-then-read inverse for a single `license` element: the events the
/// writer emits for it, standing anywhere in a document, parse back to the
/// same license.
pub proof fn lemma_license_inverse(evs: Seq<EvView>, i: int, l: crate::model::LicenseView)
    requires
        0 <= i,
        i + crate::xml_license::w_license(l).len() <= evs.len(),
        evs.subrange(i, i + crate::xml_license::w_license(l).len() as int)
            == crate::xml_license::w_license(l),
    ensures
        p_license_fields(evs, i + 1, crate::xml_base::noname("license"@), None, None, None)
            == Ok::<(crate::model::LicenseView, int), ErrorView>(
            (l, i + crate::xml_license::w_license(l).len()),
        ),
{
    reveal_strlit("id");
    reveal_strlit("name");
    reveal_strlit("text");
    reveal_strlit("url");
    assert("id"@.len() == 2);
    assert("name"@.len() == 4);
    assert("text"@.len() == 4);
    assert("url"@.len() == 3);
    assert("name"@[0] == 'n');
    assert("text"@[0] == 't');
    assert("name"@ != "text"@);
    let wl = crate::xml_license::w_license(l);
    let wi = crate::xml_license::w_license_identifier(l.license_identifier);
    assert(wi.len() == 3);
    let tlen: int = match l.text {
        Some(t) => 3,
        None => 0,
    };
    let ulen: int = match l.url {
        Some(u) => 3,
        None => 0,
    };
    assert(wl.len() == 5 + tlen + ulen);
    let open = crate::xml_base::noname("license"@);
    let o_end = i + 4 + tlen + ulen;
    // the closing tag
    lemma_window_index(evs, i, wl, 4 + tlen + ulen);
    assert(evs[o_end] == crate::xml_base::ex("license"@));
    let identv = Some(l.license_identifier);
    assert(p_license_fields(evs, o_end, open, identv, l.text, l.url) == Ok::<
        (crate::model::LicenseView, int),
        ErrorView,
    >((l, o_end + 1)));
    // the url leaf, where present
    let o_url = i + 4 + tlen;
    match l.url {
        Some(u) => {
            lemma_window_within(evs, i, wl, 4 + tlen, 4 + tlen + 3);
            assert(wl.subrange(4 + tlen, 4 + tlen + 3) =~= crate::xml_base::w_text_tag(
                "url"@,
                u,
            ));
            lemma_text_tag_inverse(evs, o_url, "url"@, u);
            lemma_window_index(evs, i, wl, 4 + tlen);
            assert(evs[o_url] == crate::xml_base::sx("url"@));
            assert(p_license_fields(evs, o_url, open, identv, l.text, None) == Ok::<
                (crate::model::LicenseView, int),
                ErrorView,
            >((l, o_end + 1)));
        },
        None => {
            assert(o_url == o_end);
        },
    }
    assert(p_license_fields(evs, o_url, open, identv, l.text, None) == Ok::<
        (crate::model::LicenseView, int),
        ErrorView,
    >((l, o_end + 1)));
    // the attached text, where present
    let o_text = i + 4;
    match l.text {
        Some(t) => {
            lemma_window_within(evs, i, wl, 4, 7);
            assert(wl.subrange(4, 7) =~= crate::xml_license::w_attached_text("text"@, t));
            lemma_attached_text_inverse(evs, o_text, "text"@, t);
            lemma_window_index(evs, i, wl, 4);
            assert(evs[o_text] == crate::xml_base::sxa(
                "text"@,
                crate::xml_license::attached_text_attrs(t),
            ));
            assert(p_license_fields(evs, o_text, open, identv, None, None) == Ok::<
                (crate::model::LicenseView, int),
                ErrorView,
            >((l, o_end + 1)));
        },
        None => {
            assert(o_text == o_url);
        },
    }
    assert(p_license_fields(evs, o_text, open, identv, None, None) == Ok::<
        (crate::model::LicenseView, int),
        ErrorView,
    >((l, o_end + 1)));
    // the identifier
    lemma_window_within(evs, i, wl, 1, 4);
    lemma_window_index(evs, i, wl, 1);
    match l.license_identifier {
        LicenseIdentifierView::SpdxId(s) => {
            assert(wl.subrange(1, 4) =~= crate::xml_base::w_text_tag("id"@, s));
            lemma_text_tag_inverse(evs, i + 1, "id"@, s);
            assert(evs[i + 1] == crate::xml_base::sx("id"@));
            assert(crate::xml_license::p_license_identifier(
                evs,
                i + 2,
                crate::xml_base::noname("id"@),
            ) == Ok::<(LicenseIdentifierView, int), ErrorView>((l.license_identifier, i + 4)));
        },
        LicenseIdentifierView::Name(s) => {
            assert(wl.subrange(1, 4) =~= crate::xml_base::w_text_tag("name"@, s));
            lemma_text_tag_inverse(evs, i + 1, "name"@, s);
            assert(evs[i + 1] == crate::xml_base::sx("name"@));
            assert(crate::xml_license::p_license_identifier(
                evs,
                i + 2,
                crate::xml_base::noname("name"@),
            ) == Ok::<(LicenseIdentifierView, int), ErrorView>((l.license_identifier, i + 4)));
        },
    }
    assert(p_license_fields(evs, i + 1, open, None, None, None) == Ok::<
        (crate::model::LicenseView, int),
        ErrorView,
    >((l, o_end + 1)));
}

} // verus!

verus! {

/// Write-then-read inverse for one license choice: the events the writer
/// emits for it, standing anywhere in a document, parse back to the same
/// choice.
pub proof fn lemma_license_choice_inverse(
    evs: Seq<EvView>,
    i: int,
    c: crate::model::LicenseChoiceView,
)
    requires
        0 <= i,
        i + crate::xml_license::w_license_choice(c).len() <= evs.len(),
        evs.subrange(i, i + crate::xml_license::w_license_choice(c).len() as int)
            == crate::xml_license::w_license_choice(c),
    ensures
        crate::xml_license::w_license_choice(c).len() >= 1,
        evs[i] matches EvView::Start { name, attrs } && (name.local == "license"@ || name.local
            == "expression"@) && crate::xml_license::p_license_choice(evs, i + 1, name) == Ok::<
            (crate::model::LicenseChoiceView, int),
            ErrorView,
        >((c, i + crate::xml_license::w_license_choice(c).len())),
{
    reveal_strlit("license");
    reveal_strlit("expression");
    assert("license"@.len() == 7);
    assert("expression"@.len() == 10);
    assert("license"@ != "expression"@);
    let wc = crate::xml_license::w_license_choice(c);
    lemma_window_index(evs, i, wc, 0);
    match c {
        crate::model::LicenseChoiceView::License(l) => {
            assert(wc == crate::xml_license::w_license(l));
            assert(wc[0] == crate::xml_base::sx("license"@));
            lemma_license_inverse(evs, i, l);
        },
        crate::model::LicenseChoiceView::Expression(e) => {
            assert(wc == crate::xml_base::w_text_tag("expression"@, e));
            assert(wc[0] == crate::xml_base::sx("expression"@));
            lemma_text_tag_inverse(evs, i, "expression"@, e);
        },
    }
}

/// Write-then-read inverse for the children of a `licenses` element: the
/// written choices, followed by the matching end tag, parse back to the
/// choices already collected plus the written ones, in order.
proof fn lemma_license_choices_inverse(
    evs: Seq<EvView>,
    i: int,
    open: EvNameView,
    acc: Seq<crate::model::LicenseChoiceView>,
    rest: Seq<crate::model::LicenseChoiceView>,
)
    requires
        0 <= i,
        i + crate::xml_base::w_children(rest, "license"@).len() + 1 <= evs.len(),
        evs.subrange(i, i + crate::xml_base::w_children(rest, "license"@).len() as int)
            == crate::xml_base::w_children(rest, "license"@),
        evs[i + crate::xml_base::w_children(rest, "license"@).len()] == (EvView::End {
            name: open,
        }),
    ensures
        crate::xml_license::p_license_choices(evs, i, open, acc) == Ok::<
            (Seq<crate::model::LicenseChoiceView>, int),
            ErrorView,
        >((acc + rest, i + crate::xml_base::w_children(rest, "license"@).len() + 1)),
    decreases rest.len(),
{
    let wc = crate::xml_base::w_children(rest, "license"@);
    if rest.len() == 0 {
        assert(wc =~= Seq::<EvView>::empty());
        assert(evs[i] == (EvView::End { name: open }));
        assert(acc + rest =~= acc);
    } else {
        let r0 = rest[0];
        let w0 = crate::xml_license::w_license_choice(r0);
        let rest1 = rest.subrange(1, rest.len() as int);
        let w1 = crate::xml_base::w_children(rest1, "license"@);
        assert(r0.child_events("license"@) == w0);
        assert(wc == w0 + w1);
        lemma_window_within(evs, i, wc, 0, w0.len() as int);
        assert(wc.subrange(0, w0.len() as int) =~= w0);
        lemma_license_choice_inverse(evs, i, r0);
        lemma_window_within(evs, i, wc, w0.len() as int, wc.len() as int);
        assert(wc.subrange(w0.len() as int, wc.len() as int) =~= w1);
        lemma_license_choices_inverse(evs, i + w0.len(), open, acc.push(r0), rest1);
        assert(acc.push(r0) + rest1 =~= acc + rest);
    }
}

/// Round-trip identity for license lists: a standalone `licenses` document
/// written by the engine parses back, at the event plane, to the same list
/// of choices — for the empty list, for structured licenses and for raw
/// expressions alike.
pub proof fn lemma_licenses_document_round_trip(ls: crate::model::LicensesView)
    ensures
        crate::xml_api::p_licenses_document(
            seq![EvView::DocStart] + crate::xml_license::w_licenses(ls),
        ) == Ok::<crate::model::LicensesView, ErrorView>(ls),
{
    reveal_strlit("licenses");
    let wl = crate::xml_license::w_licenses(ls);
    let wc = crate::xml_base::w_children(ls.0, "license"@);
    let evs = seq![EvView::DocStart] + wl;
    assert(wl == seq![crate::xml_base::sx("licenses"@)] + wc + seq![
        crate::xml_base::ex("licenses"@),
    ]);
    assert(evs.len() == wc.len() as int + 3);
    assert(evs[0] == EvView::DocStart);
    assert(evs[1] == crate::xml_base::sx("licenses"@));
    let open = crate::xml_base::noname("licenses"@);
    assert forall|k: int| 0 <= k < wc.len() implies evs.subrange(2, 2 + wc.len() as int)[k]
        == wc[k] by {
        assert(evs[2 + k] == wl[1 + k]);
        assert(wl[1 + k] == wc[k]);
    }
    assert(evs.subrange(2, 2 + wc.len() as int) =~= wc);
    assert(evs[2 + wc.len() as int] == (EvView::End { name: open }));
    lemma_license_choices_inverse(evs, 2, open, Seq::empty(), ls.0);
    assert(Seq::empty() + ls.0 =~= ls.0);
    assert(crate::xml_license::p_licenses(evs, 2, open) == Ok::<
        (crate::model::LicensesView, int),
        ErrorView,
    >((crate::model::LicensesView(ls.0), 2 + wc.len() as int + 1)));
    assert(ls == crate::model::LicensesView(ls.0));
}

} // verus!

verus! {

proof fn lemma_property_inverse(evs: Seq<EvView>, i: int, p: crate::model::PropertyView)
    requires
        0 <= i,
        i + 3 <= evs.len(),
        evs.subrange(i, i + 3) == crate::xml_simple::w_property(p),
    ensures
        crate::xml_simple::p_property(
            evs,
            i + 1,
            crate::xml_base::noname("property"@),
            seq![("name"@, p.name)],
        ) == Ok::<(crate::model::PropertyView, int), ErrorView>((p, i + 3)),
{
    let w = crate::xml_simple::w_property(p);
    lemma_window_index(evs, i, w, 1);
    lemma_window_index(evs, i, w, 2);
    assert(evs[i + 1] == EvView::Text(p.value));
    assert(evs[i + 2] == crate::xml_base::ex("property"@));
    let at = seq![("name"@, p.name)];
    assert(crate::xml_base::spec_attr(at, "name"@) == Some(p.name));
}

proof fn lemma_properties_inverse(
    evs: Seq<EvView>,
    i: int,
    open: EvNameView,
    acc: Seq<crate::model::PropertyView>,
    rest: Seq<crate::model::PropertyView>,
    sig_ok: bool,
)
    requires
        0 <= i,
        i + crate::xml_base::w_children(rest, "property"@).len() + 1 <= evs.len(),
        evs.subrange(i, i + crate::xml_base::w_children(rest, "property"@).len() as int)
            == crate::xml_base::w_children(rest, "property"@),
        evs[i + crate::xml_base::w_children(rest, "property"@).len()] == (EvView::End {
            name: open,
        }),
    ensures
        crate::xml_list::p_list::<crate::model::Property>(evs, i, open, "property"@, acc, sig_ok)
            == Ok::<(Seq<crate::model::PropertyView>, int), ErrorView>(
            (acc + rest, i + crate::xml_base::w_children(rest, "property"@).len() + 1),
        ),
    decreases rest.len(),
{
    let wc = crate::xml_base::w_children(rest, "property"@);
    if rest.len() == 0 {
        assert(wc =~= Seq::<EvView>::empty());
        assert(evs[i] == (EvView::End { name: open }));
        assert(acc + rest =~= acc);
    } else {
        let r0 = rest[0];
        let w0 = crate::xml_simple::w_property(r0);
        let rest1 = rest.subrange(1, rest.len() as int);
        let w1 = crate::xml_base::w_children(rest1, "property"@);
        assert(r0.child_events("property"@) == w0);
        assert(wc == w0 + w1);
        assert(w0.len() == 3);
        lemma_window_within(evs, i, wc, 0, 3);
        assert(wc.subrange(0, 3) =~= w0);
        lemma_window_index(evs, i, wc, 0);
        assert(evs[i] == crate::xml_base::sxa("property"@, seq![("name"@, r0.name)]));
        lemma_property_inverse(evs, i, r0);
        lemma_window_within(evs, i, wc, 3, wc.len() as int);
        assert(wc.subrange(3, wc.len() as int) =~= w1);
        lemma_properties_inverse(evs, i + 3, open, acc.push(r0), rest1, sig_ok);
        assert(acc.push(r0) + rest1 =~= acc + rest);
    }
}

} // verus!

verus! {

proof fn lemma_signature_inverse(evs: Seq<EvView>, i: int, s: crate::model::SignatureView)
    requires
        0 <= i,
        i + 8 <= evs.len(),
        evs.subrange(i, i + 8) == crate::xml_simple::w_signature(s),
    ensures
        crate::xml_simple::p_signature_fields(
            evs,
            i + 1,
            crate::xml_base::noname("signature"@),
            None,
            None,
        ) == Ok::<(crate::model::SignatureView, int), ErrorView>((s, i + 8)),
{
    reveal_strlit("algorithm");
    reveal_strlit("value");
    assert("algorithm"@.len() == 9);
    assert("value"@.len() == 5);
    assert("algorithm"@ != "value"@);
    let w = crate::xml_simple::w_signature(s);
    assert(w.len() == 8);
    let open = crate::xml_base::noname("signature"@);
    lemma_window_within(evs, i, w, 1, 4);
    assert(w.subrange(1, 4) =~= crate::xml_base::w_text_tag("algorithm"@, s.algorithm));
    lemma_text_tag_inverse(evs, i + 1, "algorithm"@, s.algorithm);
    lemma_window_within(evs, i, w, 4, 7);
    assert(w.subrange(4, 7) =~= crate::xml_base::w_text_tag("value"@, s.value));
    lemma_text_tag_inverse(evs, i + 4, "value"@, s.value);
    lemma_window_index(evs, i, w, 1);
    lemma_window_index(evs, i, w, 4);
    lemma_window_index(evs, i, w, 7);
    assert(evs[i + 1] == crate::xml_base::sx("algorithm"@));
    assert(evs[i + 4] == crate::xml_base::sx("value"@));
    assert(evs[i + 7] == crate::xml_base::ex("signature"@));
    assert(crate::xml_simple::p_signature_fields(evs, i + 7, open, Some(s.algorithm), Some(
        s.value,
    )) == Ok::<(crate::model::SignatureView, int), ErrorView>((s, i + 8)));
    assert(crate::xml_simple::p_signature_fields(evs, i + 4, open, Some(s.algorithm), None)
        == Ok::<(crate::model::SignatureView, int), ErrorView>((s, i + 8)));
}

/// Round-trip identity at the document level: a bill of materials whose
/// populated optional sections are at most `properties` and the enveloped
/// signature — the signature only at versions that carry it — written for a
/// version and read back at that version, is unchanged.  The law holds at
/// the event plane, between the verified writer's and the verified reader's
/// specification functions.
#[verifier::rlimit(100)]
pub proof fn lemma_flat_document_round_trip(b: BomView, version: SpecVersion)
    requires
        b.metadata is None,
        b.components is None,
        b.services is None,
        b.external_references is None,
        b.dependencies is None,
        b.compositions is None,
        b.vulnerabilities is None,
        b.signature is Some ==> version.spec_supports_signed_extensions(),
    ensures
        crate::xml_doc::p_bom_document(
            seq![EvView::DocStart] + crate::xml_doc::w_bom(b, version) + seq![EvView::DocEnd],
            version,
        ) == Ok::<BomView, ErrorView>(b),
{
    reveal_strlit("serialNumber");
    reveal_strlit("version");
    reveal_with_fuel(crate::xml_base::spec_attr, 3);
    assert("serialNumber"@.len() == 12);
    assert("version"@.len() == 7);
    assert("serialNumber"@ != "version"@);
    reveal_strlit("metadata");
    reveal_strlit("components");
    reveal_strlit("services");
    reveal_strlit("externalReferences");
    reveal_strlit("dependencies");
    reveal_strlit("compositions");
    reveal_strlit("properties");
    reveal_strlit("vulnerabilities");
    reveal_strlit("signature");
    assert("metadata"@.len() == 8);
    assert("components"@.len() == 10);
    assert("services"@.len() == 8);
    assert("externalReferences"@.len() == 18);
    assert("dependencies"@.len() == 12);
    assert("compositions"@.len() == 12);
    assert("properties"@.len() == 10);
    assert("vulnerabilities"@.len() == 15);
    assert("signature"@.len() == 9);
    assert("properties"@[0] == 'p');
    assert("components"@[0] == 'c');
    assert("properties"@ != "components"@);
    assert("dependencies"@[0] == 'd');
    assert("compositions"@[0] == 'c');
    assert("dependencies"@ != "compositions"@);
    let root = crate::xml_doc::bom_root(b, version);
    let close = EvView::End {
        name: EvNameView { ns: Some(version.spec_namespace()), local: "bom"@ },
    };
    let sig_ok = version.spec_supports_signed_extensions();
    let props_part = crate::xml_list::w_opt_wrapped("properties"@, "property"@, b.properties);
    let sig_part: Seq<EvView> = match b.signature {
        Some(sg) => crate::xml_simple::w_signature(sg),
        None => Seq::empty(),
    };
    assert(crate::xml_doc::w_bom_head(b) =~= Seq::<EvView>::empty());
    assert(crate::xml_doc::w_bom_tail(b) =~= props_part + sig_part);
    let wb = crate::xml_doc::w_bom(b, version);
    assert(wb =~= seq![root] + props_part + sig_part + seq![close]);
    let evs = seq![EvView::DocStart] + wb + seq![EvView::DocEnd];
    let plen = props_part.len() as int;
    let slen = sig_part.len() as int;
    assert(evs.len() == plen + slen + 4);
    assert(evs[0] == EvView::DocStart);
    assert(evs[1] == root);
    let o_p: int = 2;
    let o_s = o_p + plen;
    let o_end = o_s + slen;
    assert(evs[o_end] == close);
    assert(evs[o_end + 1] == EvView::DocEnd);
    // the root attributes
    let at = crate::xml_doc::bom_attrs(b);
    let vpair = ("version"@, crate::scalars::u32_dec_str(b.version as int));
    match b.serial_number {
        Some(sn) => {
            assert(at =~= seq![("serialNumber"@, sn), vpair]);
            assert(at.subrange(1, at.len() as int) =~= seq![vpair]);
            assert(crate::xml_base::spec_attr(at.subrange(1, at.len() as int), "version"@)
                == Some(vpair.1));
            assert(crate::xml_base::spec_attr(at, "version"@) == Some(vpair.1));
            assert(crate::xml_base::spec_attr(at, "serialNumber"@) == Some(sn));
        },
        None => {
            assert(at =~= seq![vpair]);
            assert(at.subrange(1, at.len() as int) =~= Seq::<(Seq<char>, Seq<char>)>::empty());
            assert(crate::xml_base::spec_attr(at.subrange(1, at.len() as int), "serialNumber"@)
                is None);
            assert(crate::xml_base::spec_attr(at, "version"@) == Some(vpair.1));
            assert(crate::xml_base::spec_attr(at, "serialNumber"@) is None);
        },
    }
    crate::scalars::lemma_u32_text_round_trip(b.version);
    let rootname = EvNameView { ns: Some(version.spec_namespace()), local: "bom"@ };
    let acc0 = crate::xml_doc::bom_acc_empty();
    let acc1 = crate::xml_doc::BomAccView { properties: b.properties, ..acc0 };
    let acc2 = crate::xml_doc::BomAccView { signature: b.signature, ..acc1 };
    // after all sections: the closing tag and the end of the document
    assert(p_bom_children(evs, o_end, rootname, b.version, b.serial_number, acc2, sig_ok)
        == Ok::<BomView, ErrorView>(crate::xml_doc::bom_of_acc(
        b.version,
        b.serial_number,
        acc2,
    )));
    assert(crate::xml_doc::bom_of_acc(b.version, b.serial_number, acc2) == b);
    // the signature section, where present
    match b.signature {
        Some(sg) => {
            assert forall|k: int| 0 <= k < slen implies evs.subrange(o_s, o_end)[k]
                == sig_part[k] by {
                assert(evs[o_s + k] == wb[1 + plen + k]);
                assert(wb[1 + plen + k] == sig_part[k]);
            }
            assert(evs.subrange(o_s, o_s + 8) =~= crate::xml_simple::w_signature(sg));
            lemma_signature_inverse(evs, o_s, sg);
            assert(evs[o_s] == crate::xml_base::sx("signature"@));
            assert(p_bom_children(evs, o_s, rootname, b.version, b.serial_number, acc1, sig_ok)
                == Ok::<BomView, ErrorView>(b));
        },
        None => {
            assert(acc1 == acc2);
            assert(o_s == o_end);
        },
    }
    assert(p_bom_children(evs, o_s, rootname, b.version, b.serial_number, acc1, sig_ok) == Ok::<
        BomView,
        ErrorView,
    >(b));
    // the properties section, where present
    match b.properties {
        Some(ps) => {
            let wc = crate::xml_base::w_children(ps, "property"@);
            assert(props_part =~= seq![crate::xml_base::sx("properties"@)] + wc + seq![
                crate::xml_base::ex("properties"@),
            ]);
            assert(plen == wc.len() + 2);
            assert forall|k: int| 0 <= k < plen implies evs[o_p + k] == props_part[k] by {
                assert(evs[o_p + k] == wb[1 + k]);
                assert(wb[1 + k] == props_part[k]);
            }
            assert(evs[o_p] == crate::xml_base::sx("properties"@));
            assert forall|k: int| 0 <= k < wc.len() implies evs.subrange(
                o_p + 1,
                o_p + 1 + wc.len() as int,
            )[k] == wc[k] by {
                assert(evs[o_p + 1 + k] == props_part[1 + k]);
            }
            assert(evs.subrange(o_p + 1, o_p + 1 + wc.len() as int) =~= wc);
            assert(evs[o_p + 1 + wc.len() as int] == (EvView::End {
                name: crate::xml_base::noname("properties"@),
            }));
            lemma_properties_inverse(
                evs,
                o_p + 1,
                crate::xml_base::noname("properties"@),
                Seq::empty(),
                ps,
                sig_ok,
            );
            assert(Seq::empty() + ps =~= ps);
            assert(crate::xml_list::p_list::<crate::model::Property>(
                evs,
                o_p + 1,
                crate::xml_base::noname("properties"@),
                "property"@,
                Seq::empty(),
                sig_ok,
            ) == Ok::<(Seq<crate::model::PropertyView>, int), ErrorView>((ps, o_s)));
            assert(p_bom_children(evs, o_p, rootname, b.version, b.serial_number, acc0, sig_ok)
                == Ok::<BomView, ErrorView>(b));
        },
        None => {
            assert(acc0 == acc1);
            assert(o_p == o_s);
        },
    }
    assert(p_bom_children(evs, o_p, rootname, b.version, b.serial_number, acc0, sig_ok) == Ok::<
        BomView,
        ErrorView,
    >(b));
}

} // verus!

verus! {

/// Write-then-read inverse for a run of empty `ref`-attribute children: the
/// written references, followed by the matching end tag, parse back to the
/// references already collected plus the written ones, in order.
proof fn lemma_ref_items_inverse(
    evs: Seq<EvView>,
    i: int,
    open: EvNameView,
    tag: Seq<char>,
    acc: Seq<Seq<char>>,
    rest: Seq<Seq<char>>,
)
    requires
        0 <= i,
        i + crate::xml_base::w_ref_list(rest, tag).len() + 1 <= evs.len(),
        evs.subrange(i, i + crate::xml_base::w_ref_list(rest, tag).len() as int)
            == crate::xml_base::w_ref_list(rest, tag),
        evs[i + crate::xml_base::w_ref_list(rest, tag).len()] == (EvView::End { name: open }),
    ensures
        crate::xml_list::p_ref_items(evs, i, open, tag, acc) == Ok::<
            (Seq<Seq<char>>, int),
            ErrorView,
        >((acc + rest, i + crate::xml_base::w_ref_list(rest, tag).len() + 1)),
    decreases rest.len(),
{
    let wc = crate::xml_base::w_ref_list(rest, tag);
    if rest.len() == 0 {
        assert(wc =~= Seq::<EvView>::empty());
        assert(evs[i] == (EvView::End { name: open }));
        assert(acc + rest =~= acc);
    } else {
        let r0 = rest[0];
        let w0 = crate::xml_base::w_ref_tag(tag, r0);
        let rest1 = rest.subrange(1, rest.len() as int);
        let w1 = crate::xml_base::w_ref_list(rest1, tag);
        assert(wc == w0 + w1);
        assert(w0.len() == 2);
        lemma_window_index(evs, i, wc, 0);
        lemma_window_index(evs, i, wc, 1);
        assert(evs[i] == crate::xml_base::sxa(tag, seq![("ref"@, r0)]));
        assert(evs[i + 1] == crate::xml_base::ex(tag));
        assert(crate::xml_base::spec_attr(seq![("ref"@, r0)], "ref"@) == Some(r0));
        lemma_window_within(evs, i, wc, 2, wc.len() as int);
        assert(wc.subrange(2, wc.len() as int) =~= w1);
        lemma_ref_items_inverse(evs, i + 2, open, tag, acc.push(r0), rest1);
        assert(acc.push(r0) + rest1 =~= acc + rest);
    }
}

/// Write-then-read inverse for a `dependency` element: the events the
/// writer emits for it, standing anywhere in a document, parse back to the
/// same graph edge.
pub proof fn lemma_dependency_inverse(evs: Seq<EvView>, i: int, d: crate::model::DependencyView)
    requires
        0 <= i,
        i + crate::xml_structs::w_dependency(d).len() <= evs.len(),
        evs.subrange(i, i + crate::xml_structs::w_dependency(d).len() as int)
            == crate::xml_structs::w_dependency(d),
    ensures
        crate::xml_structs::p_dependency(
            evs,
            i + 1,
            crate::xml_base::noname("dependency"@),
            seq![("ref"@, d.dependency_ref)],
        ) == Ok::<(crate::model::DependencyView, int), ErrorView>(
            (d, i + crate::xml_structs::w_dependency(d).len()),
        ),
{
    let wd = crate::xml_structs::w_dependency(d);
    let wr = crate::xml_base::w_ref_list(d.depends_on, "dependency"@);
    assert(wd.len() == wr.len() + 2);
    assert(crate::xml_base::spec_attr(seq![("ref"@, d.dependency_ref)], "ref"@) == Some(
        d.dependency_ref,
    ));
    lemma_window_within(evs, i, wd, 1, 1 + wr.len() as int);
    assert(wd.subrange(1, 1 + wr.len() as int) =~= wr);
    lemma_window_index(evs, i, wd, 1 + wr.len() as int);
    assert(evs[i + 1 + wr.len() as int] == crate::xml_base::ex("dependency"@));
    lemma_ref_items_inverse(
        evs,
        i + 1,
        crate::xml_base::noname("dependency"@),
        "dependency"@,
        Seq::empty(),
        d.depends_on,
    );
    assert(Seq::empty() + d.depends_on =~= d.depends_on);
}

/// Write-then-read inverse for the children of a `dependencies` container:
/// the written edges, followed by the matching end tag, parse back to the
/// edges already collected plus the written ones, in order.
pub proof fn lemma_dependencies_inverse(
    evs: Seq<EvView>,
    i: int,
    open: EvNameView,
    acc: Seq<crate::model::DependencyView>,
    rest: Seq<crate::model::DependencyView>,
    sig_ok: bool,
)
    requires
        0 <= i,
        i + crate::xml_base::w_children(rest, "dependency"@).len() + 1 <= evs.len(),
        evs.subrange(i, i + crate::xml_base::w_children(rest, "dependency"@).len() as int)
            == crate::xml_base::w_children(rest, "dependency"@),
        evs[i + crate::xml_base::w_children(rest, "dependency"@).len()] == (EvView::End {
            name: open,
        }),
    ensures
        crate::xml_list::p_list::<crate::model::Dependency>(
            evs,
            i,
            open,
            "dependency"@,
            acc,
            sig_ok,
        ) == Ok::<(Seq<crate::model::DependencyView>, int), ErrorView>(
            (acc + rest, i + crate::xml_base::w_children(rest, "dependency"@).len() + 1),
        ),
    decreases rest.len(),
{
    let wc = crate::xml_base::w_children(rest, "dependency"@);
    if rest.len() == 0 {
        assert(wc =~= Seq::<EvView>::empty());
        assert(evs[i] == (EvView::End { name: open }));
        assert(acc + rest =~= acc);
    } else {
        let r0 = rest[0];
        let w0 = crate::xml_structs::w_dependency(r0);
        let rest1 = rest.subrange(1, rest.len() as int);
        let w1 = crate::xml_base::w_children(rest1, "dependency"@);
        assert(r0.child_events("dependency"@) == w0);
        assert(wc == w0 + w1);
        lemma_window_within(evs, i, wc, 0, w0.len() as int);
        assert(wc.subrange(0, w0.len() as int) =~= w0);
        lemma_window_index(evs, i, wc, 0);
        assert(evs[i] == crate::xml_base::sxa("dependency"@, seq![("ref"@, r0.dependency_ref)]));
        lemma_dependency_inverse(evs, i, r0);
        lemma_window_within(evs, i, wc, w0.len() as int, wc.len() as int);
        assert(wc.subrange(w0.len() as int, wc.len() as int) =~= w1);
        lemma_dependencies_inverse(evs, i + w0.len(), open, acc.push(r0), rest1, sig_ok);
        assert(acc.push(r0) + rest1 =~= acc + rest);
    }
}

} // verus!
