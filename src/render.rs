//! The text form of a benchmark record, section by section.
use vstd::prelude::*;

use crate::codes::{RnGPSExploitCode, VoieCoteCode};
use crate::record::RepereNivellement;
use crate::text::str_eq;

verus! {

/// The tree branch before a sub-line: `├╴` where more sub-lines follow, else `└╴`.
pub open spec fn branch(more: bool) -> Seq<char> {
    if more {
        "├╴"@
    } else {
        "└╴"@
    }
}

/// Whether an optional text field is present and not empty.
pub open spec fn filled(o: Option<String>) -> bool {
    o matches Some(s) && s@.len() > 0
}

/// The identity and altimetry section.
pub open spec fn header_text(r: RepereNivellement) -> Seq<char> {
    "=============== Repère de nivellement ===============\n"@ + "Fiche en ligne : "@
        + r.fiche_url@ + "\n\n"@ + "Matricule : "@ + r.matricule@ + "\n"@
        + "Système altimétrique : "@ + r.systeme_altimetrique.label_spec() + "\n"@
        + "Altitude : "@ + r.altitude@ + "m ("@ + r.altitude_type.label_spec() + ")\n"@ + (
    if r.altitude_complementaire@.len() == 0 {
        Seq::empty()
    } else {
        "Altitude : "@ + r.altitude_complementaire@ + "m (Altitude complémentaire)\n"@
    }) + "\n"@
}

/// The section of the last observation and visit.
pub open spec fn history_text(r: RepereNivellement) -> Seq<char> {
    "=== Dernière visite et observation ===\n"@ + "Année de dernière observation : "@
        + r.derniere_observation@ + "\n"@ + "Année de nouveau calcul : "@ + r.nouveau_calcul@
        + "\n"@ + "Dernière visite : "@ + r.derniere_visite@ + "\n"@ + "État : "@
        + r.etat.label_spec() + "\n\n"@
}

/// The type section; the complement line only where the composite complement is
/// not empty.
pub open spec fn type_text(r: RepereNivellement) -> Seq<char> {
    "=== Type ===\n"@ + "Type : "@ + r.rn_type.label_spec() + "\n"@ + (
    if r.type_complement_avec_canex@.len() == 0 {
        Seq::empty()
    } else {
        "Complément : "@ + r.type_complement_avec_canex@ + "\n"@
    }) + "\n"@
}

/// The two coordinate sections.
pub open spec fn coordinates_text(r: RepereNivellement) -> Seq<char> {
    "=== Coordonnées DMS ===\n"@ + "Longitude (dms) : "@ + r.longitude@ + "\n"@
        + "Latitude (dms) : "@ + r.latitude@ + "\n\n"@ + "=== Coordonnées en mètres ===\n"@
        + "E (m) : "@ + r.e@ + "\n"@ + "N (m) : "@ + r.n@ + "\n\n"@
}

/// The "from" line of the followed route.
pub open spec fn route_from_text(r: RepereNivellement) -> Seq<char> {
    match r.voie_de {
        Some(d) => branch(
            r.voie_vers is Some || r.voie_cote != VoieCoteCode::TheAPIDocumentationIsWrong
                || r.voie_pk is Some,
        ) + " de : "@ + d@ + "\n"@,
        None => Seq::empty(),
    }
}

/// The "to" line of the followed route.
pub open spec fn route_to_text(r: RepereNivellement) -> Seq<char> {
    match r.voie_vers {
        Some(v) => branch(
            r.voie_cote != VoieCoteCode::TheAPIDocumentationIsWrong || r.voie_pk is Some,
        ) + " à : "@ + v@ + "\n"@,
        None => Seq::empty(),
    }
}

/// The side line of the followed route; none for the undocumented side code.
pub open spec fn route_side_text(r: RepereNivellement) -> Seq<char> {
    if r.voie_cote != VoieCoteCode::TheAPIDocumentationIsWrong {
        branch(r.voie_pk is Some) + " côté : "@ + r.voie_cote.label_spec() + "\n"@
    } else {
        Seq::empty()
    }
}

/// The kilometer-point line of the followed route.
pub open spec fn route_pk_text(r: RepereNivellement) -> Seq<char> {
    match r.voie_pk {
        Some(k) => "└╴ PK : "@ + k@ + "\n"@,
        None => Seq::empty(),
    }
}

/// The distance from the reference benchmark.
pub open spec fn distance_text(r: RepereNivellement) -> Seq<char> {
    match r.distance {
        Some(d) => "Distance : "@ + d@ + "km\n"@ + "└╴ du repère : "@ + r.du_repere@ + "\n"@,
        None => Seq::empty(),
    }
}

/// The free-text location.
pub open spec fn localisation_text(r: RepereNivellement) -> Seq<char> {
    match r.localisation {
        Some(l) => "Localisation : "@ + l@ + "\n"@,
        None => Seq::empty(),
    }
}

/// The lines of the followed route below its name.
pub open spec fn route_text(r: RepereNivellement) -> Seq<char> {
    route_from_text(r) + route_to_text(r) + route_side_text(r) + route_pk_text(r)
}

/// The administrative location and the name of the followed route.
pub open spec fn location_head_text(r: RepereNivellement) -> Seq<char> {
    "=== Localisation ===\n"@ + "Département : "@ + r.departement@ + "\n"@
        + "Numéro insee : "@ + r.insee@ + "\n"@ + "Commune : "@ + r.commune@ + "\n"@
        + "Voie suivie : "@ + r.voie_suivie@ + "\n"@
}

/// The location section.
pub open spec fn location_text(r: RepereNivellement) -> Seq<char> {
    location_head_text(r) + route_text(r) + distance_text(r) + localisation_text(r) + "\n"@
}

/// The horizontal referencing line, where it is given and not empty.
pub open spec fn horizontal_text(r: RepereNivellement) -> Seq<char> {
    match r.reperement_horizontal {
        Some(h) => if h@.len() > 0 {
            branch(filled(r.reperement_vertical)) + " horizontal : "@ + h@ + "\n"@
        } else {
            Seq::empty()
        },
        None => Seq::empty(),
    }
}

/// The vertical referencing line, where it is given and not empty.
pub open spec fn vertical_text(r: RepereNivellement) -> Seq<char> {
    match r.reperement_vertical {
        Some(v) => if v@.len() > 0 {
            "└╴ vertical : "@ + v@ + "\n"@
        } else {
            Seq::empty()
        },
        None => Seq::empty(),
    }
}

/// The support, its geodetic information and the part of it that is marked.
pub open spec fn support_head_text(r: RepereNivellement) -> Seq<char> {
    "=== Support ===\n"@ + "Support : "@ + r.support@ + (if r.geod_info@.len() == 0 {
        Seq::empty()
    } else {
        " ("@ + r.geod_info@ + ")"@
    }) + "\n"@ + (match r.partie_support {
        Some(p) => "Partie du support : "@ + p@ + "\n"@,
        None => Seq::empty(),
    }) + "Repèrements :\n"@
}

/// The physical support section.
pub open spec fn support_text(r: RepereNivellement) -> Seq<char> {
    support_head_text(r) + horizontal_text(r) + vertical_text(r)
}

/// The remarks section: none where there is neither a remark nor a GPS code.
pub open spec fn remarks_text(r: RepereNivellement) -> Seq<char> {
    if r.remarques@.len() == 0 && r.exploitabilite_gps == RnGPSExploitCode::Empty {
        Seq::empty()
    } else {
        "\n=== Remarques ===\n"@ + (if r.remarques@.len() > 0 {
            "Remarques : "@ + r.remarques@ + "\n"@
        } else {
            Seq::empty()
        }) + (if r.exploitabilite_gps != RnGPSExploitCode::Empty {
            "Exploitabilité GPS : "@ + r.exploitabilite_gps.label_spec() + "\n"@
        } else {
            Seq::empty()
        }) + "\n"@
    }
}

/// Whether a "hors IGN" value means that there is nothing to report.
pub open spec fn hors_ign_is_quiet(h: Seq<char>) -> bool {
    h == "100001"@ || h == "100063"@ || h.len() == 0
}

/// The "hors IGN" notice: none for the quiet values, else the value on a line.
pub open spec fn hors_ign_text(r: RepereNivellement) -> Seq<char> {
    if hors_ign_is_quiet(r.hors_ign@) {
        Seq::empty()
    } else {
        r.hors_ign@ + "\n"@
    }
}

/// The whole text of a record: its sections in a fixed order, then a newline.
pub open spec fn render_spec(r: RepereNivellement) -> Seq<char> {
    header_text(r) + history_text(r) + type_text(r) + coordinates_text(r) + location_text(r)
        + support_text(r) + remarks_text(r) + hors_ign_text(r) + "\n"@
}

/// Each optional line of the text is empty where its field is absent (or, for
/// the side, holds the undocumented code).
pub proof fn lemma_absent_fields_render_nothing(r: RepereNivellement)
    ensures
        r.voie_de is None ==> route_from_text(r).len() == 0,
        r.voie_vers is None ==> route_to_text(r).len() == 0,
        r.voie_cote == VoieCoteCode::TheAPIDocumentationIsWrong ==> route_side_text(r).len() == 0,
        r.voie_pk is None ==> route_pk_text(r).len() == 0,
        r.distance is None ==> distance_text(r).len() == 0,
        r.localisation is None ==> localisation_text(r).len() == 0,
        !filled(r.reperement_horizontal) ==> horizontal_text(r).len() == 0,
        !filled(r.reperement_vertical) ==> vertical_text(r).len() == 0,
        r.remarques@.len() == 0 && r.exploitabilite_gps == RnGPSExploitCode::Empty ==> remarks_text(
            r,
        ).len() == 0,
        hors_ign_is_quiet(r.hors_ign@) ==> hors_ign_text(r).len() == 0,
{
}

/// Without the route's "from" field the text is the text with that field, less
/// exactly the "from" line: every other section is the same, and the location
/// section loses that line and nothing else.
#[verifier::rlimit(60)]
pub proof fn lemma_route_from_line_omitted(r: RepereNivellement, d: String)
    requires
        r.voie_de is None,
    ensures
        ({
            let w = RepereNivellement { voie_de: Some(d), ..r };
            &&& header_text(w) == header_text(r)
            &&& history_text(w) == history_text(r)
            &&& type_text(w) == type_text(r)
            &&& coordinates_text(w) == coordinates_text(r)
            &&& support_text(w) == support_text(r)
            &&& remarks_text(w) == remarks_text(r)
            &&& hors_ign_text(w) == hors_ign_text(r)
            &&& exists|p: Seq<char>, q: Seq<char>|
                {
                    &&& location_text(r) == #[trigger] (p + q)
                    &&& location_text(w) == p + branch(
                        r.voie_vers is Some || r.voie_cote
                            != VoieCoteCode::TheAPIDocumentationIsWrong || r.voie_pk is Some,
                    ) + " de : "@ + d@ + "\n"@ + q
                }
        }),
{
    let w = RepereNivellement { voie_de: Some(d), ..r };
    let p = location_head_text(r);
    let q = route_to_text(r) + route_side_text(r) + route_pk_text(r) + distance_text(r)
        + localisation_text(r) + "\n"@;
    assert(location_head_text(w) == location_head_text(r));
    assert(route_to_text(w) == route_to_text(r));
    assert(route_side_text(w) == route_side_text(r));
    assert(route_pk_text(w) == route_pk_text(r));
    assert(distance_text(w) == distance_text(r));
    assert(localisation_text(w) == localisation_text(r));
    assert(route_from_text(r) =~= Seq::<char>::empty());
    assert(location_text(r) =~= p + q);
    assert(location_text(w) =~= p + route_from_text(w) + q);
}

/// Appends `"label" + value + "\n"` to `out`.
fn append_line(out: &mut String, label: &str, value: &str)
    ensures
        final(out)@ == old(out)@ + label@ + value@ + "\n"@,
{
    out.append(label);
    out.append(value);
    out.append("\n");
}

fn branch_str(more: bool) -> (r: &'static str)
    ensures
        r@ == branch(more),
{
    if more {
        "├╴"
    } else {
        "└╴"
    }
}

fn altitude_extra(r: &RepereNivellement) -> (e: String)
    ensures
        e@ == (if r.altitude_complementaire@.len() == 0 {
            Seq::empty()
        } else {
            "Altitude : "@ + r.altitude_complementaire@ + "m (Altitude complémentaire)\n"@
        }),
{
    let mut e = String::new();
    if !r.altitude_complementaire.as_str().is_empty() {
        e.append("Altitude : ");
        e.append(r.altitude_complementaire.as_str());
        e.append("m (Altitude complémentaire)\n");
    }
    e
}

fn header_part(r: &RepereNivellement, out: &mut String)
    ensures
        final(out)@ == old(out)@ + header_text(*r),
{
    let ghost o = out@;
    out.append("=============== Repère de nivellement ===============\n");
    out.append("Fiche en ligne : ");
    out.append(r.fiche_url.as_str());
    out.append("\n\n");
    append_line(out, "Matricule : ", r.matricule.as_str());
    append_line(out, "Système altimétrique : ", r.systeme_altimetrique.label());
    out.append("Altitude : ");
    out.append(r.altitude.as_str());
    out.append("m (");
    out.append(r.altitude_type.label());
    out.append(")\n");
    let extra = altitude_extra(r);
    out.append(extra.as_str());
    out.append("\n");
    assert(out@ =~= o + header_text(*r));
}

fn history_part(r: &RepereNivellement, out: &mut String)
    ensures
        final(out)@ == old(out)@ + history_text(*r),
{
    let ghost o = out@;
    out.append("=== Dernière visite et observation ===\n");
    append_line(out, "Année de dernière observation : ", r.derniere_observation.as_str());
    append_line(out, "Année de nouveau calcul : ", r.nouveau_calcul.as_str());
    append_line(out, "Dernière visite : ", r.derniere_visite.as_str());
    out.append("État : ");
    out.append(r.etat.label());
    out.append("\n\n");
    assert(out@ =~= o + history_text(*r));
}

fn type_part(r: &RepereNivellement, out: &mut String)
    ensures
        final(out)@ == old(out)@ + type_text(*r),
{
    let ghost o = out@;
    out.append("=== Type ===\n");
    append_line(out, "Type : ", r.rn_type.label());
    if !r.type_complement_avec_canex.as_str().is_empty() {
        append_line(out, "Complément : ", r.type_complement_avec_canex.as_str());
    }
    out.append("\n");
    assert(out@ =~= o + type_text(*r));
}

fn coordinates_part(r: &RepereNivellement, out: &mut String)
    ensures
        final(out)@ == old(out)@ + coordinates_text(*r),
{
    let ghost o = out@;
    out.append("=== Coordonnées DMS ===\n");
    append_line(out, "Longitude (dms) : ", r.longitude.as_str());
    out.append("Latitude (dms) : ");
    out.append(r.latitude.as_str());
    out.append("\n\n");
    out.append("=== Coordonnées en mètres ===\n");
    append_line(out, "E (m) : ", r.e.as_str());
    out.append("N (m) : ");
    out.append(r.n.as_str());
    out.append("\n\n");
    assert(out@ =~= o + coordinates_text(*r));
}

fn route_from_part(r: &RepereNivellement, out: &mut String)
    ensures
        final(out)@ == old(out)@ + route_from_text(*r),
{
    if let Some(d) = &r.voie_de {
        let more = r.voie_vers.is_some() || r.voie_cote != VoieCoteCode::TheAPIDocumentationIsWrong
            || r.voie_pk.is_some();
        out.append(branch_str(more));
        append_line(out, " de : ", d.as_str());
        assert(final(out)@ =~= old(out)@ + route_from_text(*r));
    } else {
        assert(final(out)@ =~= old(out)@ + route_from_text(*r));
    }
}

fn route_to_part(r: &RepereNivellement, out: &mut String)
    ensures
        final(out)@ == old(out)@ + route_to_text(*r),
{
    if let Some(v) = &r.voie_vers {
        let more = r.voie_cote != VoieCoteCode::TheAPIDocumentationIsWrong || r.voie_pk.is_some();
        out.append(branch_str(more));
        append_line(out, " à : ", v.as_str());
        assert(final(out)@ =~= old(out)@ + route_to_text(*r));
    } else {
        assert(final(out)@ =~= old(out)@ + route_to_text(*r));
    }
}

fn route_side_part(r: &RepereNivellement, out: &mut String)
    ensures
        final(out)@ == old(out)@ + route_side_text(*r),
{
    if r.voie_cote != VoieCoteCode::TheAPIDocumentationIsWrong {
        out.append(branch_str(r.voie_pk.is_some()));
        append_line(out, " côté : ", r.voie_cote.label());
        assert(final(out)@ =~= old(out)@ + route_side_text(*r));
    } else {
        assert(final(out)@ =~= old(out)@ + route_side_text(*r));
    }
}

fn route_pk_part(r: &RepereNivellement, out: &mut String)
    ensures
        final(out)@ == old(out)@ + route_pk_text(*r),
{
    if let Some(k) = &r.voie_pk {
        append_line(out, "└╴ PK : ", k.as_str());
        assert(final(out)@ =~= old(out)@ + route_pk_text(*r));
    } else {
        assert(final(out)@ =~= old(out)@ + route_pk_text(*r));
    }
}

fn route_part(r: &RepereNivellement, out: &mut String)
    ensures
        final(out)@ == old(out)@ + route_text(*r),
{
    let ghost o = out@;
    route_from_part(r, out);
    route_to_part(r, out);
    route_side_part(r, out);
    route_pk_part(r, out);
    assert(out@ =~= o + route_text(*r));
}

fn location_head_part(r: &RepereNivellement, out: &mut String)
    ensures
        final(out)@ == old(out)@ + location_head_text(*r),
{
    let ghost o = out@;
    out.append("=== Localisation ===\n");
    append_line(out, "Département : ", r.departement.as_str());
    append_line(out, "Numéro insee : ", r.insee.as_str());
    append_line(out, "Commune : ", r.commune.as_str());
    append_line(out, "Voie suivie : ", r.voie_suivie.as_str());
    assert(out@ =~= o + location_head_text(*r));
}

fn distance_part(r: &RepereNivellement, out: &mut String)
    ensures
        final(out)@ == old(out)@ + distance_text(*r),
{
    if let Some(d) = &r.distance {
        out.append("Distance : ");
        out.append(d.as_str());
        out.append("km\n");
        append_line(out, "└╴ du repère : ", r.du_repere.as_str());
        assert(final(out)@ =~= old(out)@ + distance_text(*r));
    } else {
        assert(final(out)@ =~= old(out)@ + distance_text(*r));
    }
}

fn localisation_part(r: &RepereNivellement, out: &mut String)
    ensures
        final(out)@ == old(out)@ + localisation_text(*r),
{
    if let Some(l) = &r.localisation {
        append_line(out, "Localisation : ", l.as_str());
        assert(final(out)@ =~= old(out)@ + localisation_text(*r));
    } else {
        assert(final(out)@ =~= old(out)@ + localisation_text(*r));
    }
}

fn location_part(r: &RepereNivellement, out: &mut String)
    ensures
        final(out)@ == old(out)@ + location_text(*r),
{
    let ghost o = out@;
    location_head_part(r, out);
    route_part(r, out);
    distance_part(r, out);
    localisation_part(r, out);
    out.append("\n");
    assert(out@ =~= o + location_text(*r));
}

fn support_head_part(r: &RepereNivellement, out: &mut String)
    ensures
        final(out)@ == old(out)@ + support_head_text(*r),
{
    let ghost o = out@;
    out.append("=== Support ===\n");
    out.append("Support : ");
    out.append(r.support.as_str());
    if !r.geod_info.as_str().is_empty() {
        out.append(" (");
        out.append(r.geod_info.as_str());
        out.append(")");
    }
    out.append("\n");
    if let Some(p) = &r.partie_support {
        append_line(out, "Partie du support : ", p.as_str());
    }
    out.append("Repèrements :\n");
    assert(out@ =~= o + support_head_text(*r));
}

fn horizontal_part(r: &RepereNivellement, out: &mut String)
    ensures
        final(out)@ == old(out)@ + horizontal_text(*r),
{
    let vertical_shown = match &r.reperement_vertical {
        Some(v) => !v.as_str().is_empty(),
        None => false,
    };
    if let Some(h) = &r.reperement_horizontal {
        if !h.as_str().is_empty() {
            out.append(branch_str(vertical_shown));
            append_line(out, " horizontal : ", h.as_str());
        }
    }
    assert(final(out)@ =~= old(out)@ + horizontal_text(*r));
}

fn vertical_part(r: &RepereNivellement, out: &mut String)
    ensures
        final(out)@ == old(out)@ + vertical_text(*r),
{
    if let Some(v) = &r.reperement_vertical {
        if !v.as_str().is_empty() {
            append_line(out, "└╴ vertical : ", v.as_str());
        }
    }
    assert(final(out)@ =~= old(out)@ + vertical_text(*r));
}

fn support_part(r: &RepereNivellement, out: &mut String)
    ensures
        final(out)@ == old(out)@ + support_text(*r),
{
    let ghost o = out@;
    support_head_part(r, out);
    horizontal_part(r, out);
    vertical_part(r, out);
    assert(out@ =~= o + support_text(*r));
}

fn remarks_part(r: &RepereNivellement, out: &mut String)
    ensures
        final(out)@ == old(out)@ + remarks_text(*r),
{
    let ghost o = out@;
    let has_remark = !r.remarques.as_str().is_empty();
    let has_gps = r.exploitabilite_gps != RnGPSExploitCode::Empty;
    if has_remark || has_gps {
        out.append("\n=== Remarques ===\n");
        if has_remark {
            append_line(out, "Remarques : ", r.remarques.as_str());
        }
        if has_gps {
            append_line(out, "Exploitabilité GPS : ", r.exploitabilite_gps.label());
        }
        out.append("\n");
    }
    assert(out@ =~= o + remarks_text(*r));
}

fn hors_ign_part(r: &RepereNivellement, out: &mut String)
    ensures
        final(out)@ == old(out)@ + hors_ign_text(*r),
{
    let h = r.hors_ign.as_str();
    if !(str_eq(h, "100001") || str_eq(h, "100063") || h.is_empty()) {
        append_line(out, "", h);
        proof {
            reveal_strlit("");
        }
        assert(final(out)@ =~= old(out)@ + hors_ign_text(*r));
    }
}

impl RepereNivellement {
    /// The text of this record: each section in a fixed order, each optional
    /// line left out where its field is absent or empty.
    pub fn render(&self) -> (r: String)
        ensures
            r@ == render_spec(*self),
    {
        let mut out = String::new();
        header_part(self, &mut out);
        history_part(self, &mut out);
        type_part(self, &mut out);
        coordinates_part(self, &mut out);
        location_part(self, &mut out);
        support_part(self, &mut out);
        remarks_part(self, &mut out);
        hors_ign_part(self, &mut out);
        out.append("\n");
        assert(out@ =~= render_spec(*self));
        out
    }
}

} // verus!
