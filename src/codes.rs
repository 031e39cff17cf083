//! The closed code tables of the bounding-box payload: each variant has a wire
//! value and a display label.
use vstd::prelude::*;

use crate::text::{
    all_digits, append_decimal, chars_of, digit_char, digit_value, digits_value, is_digit, str_eq,
};

verus! {

/// The code table that rejected a wire value.
#[derive(Clone, Copy, Debug, PartialEq, Eq, Structural)]
pub enum CodeTable {
    FeatureType,
    GeometryType,
    RnType,
    NivfRefEn,
    NivfRea,
    HType,
    RnEtat,
    RnAction,
    VoieCote,
    RnGpsExploit,
}

/// A wire value as it came: a text code or a numeric code.
#[derive(Clone, Debug, PartialEq, Eq)]
pub enum WireValue {
    Text(String),
    Number(u64),
}

/// A code table saw a wire value that none of its variants has.
#[derive(Clone, Debug, PartialEq, Eq)]
pub struct UnknownCodeError {
    pub table: CodeTable,
    pub wire: WireValue,
}

impl UnknownCodeError {
    /// Whether this error reports the text `w` in `table`.
    pub open spec fn is_text(&self, table: CodeTable, w: Seq<char>) -> bool {
        &&& self.table == table
        &&& self.wire matches WireValue::Text(t) && t@ == w
    }

    /// Whether this error reports the number `n` in `table`.
    pub open spec fn is_number(&self, table: CodeTable, n: u64) -> bool {
        &&& self.table == table
        &&& self.wire == WireValue::Number(n)
    }
}

fn unknown_text(table: CodeTable, w: &str) -> (e: UnknownCodeError)
    ensures
        e.is_text(table, w@),
{
    UnknownCodeError { table, wire: WireValue::Text(String::from_str(w)) }
}

/// The single character of `w`, if it has exactly one.
fn single_char(w: &str) -> (r: Option<char>)
    ensures
        r matches Some(c) ==> w@ == seq![c],
        r is None ==> w@.len() != 1,
{
    let cs = chars_of(w);
    if cs.len() == 1 {
        assert(w@ =~= seq![cs@[0]]);
        Some(cs[0])
    } else {
        None
    }
}

/// The three-digit, zero-padded form of `n`.
pub open spec fn three_digits(n: int) -> Seq<char> {
    seq![digit_char(n / 100), digit_char((n / 10) % 10), digit_char(n % 10)]
}

/// The physical kind of a benchmark; its wire code is a zero-padded number.
#[derive(Clone, Copy, Debug, PartialEq, Eq, Structural)]
pub enum RnTypeCode {
    Inconnu,
    RepereConsole,
    Rivet,
    RepereBourdaloue,
    ReperePLMCheminDeFerParisLyonMediterranee,
    RepereMRUMinistereReconstructionUrbanisme,
    ReperePontsEtChaussees,
    RepereNavigation,
    RepereVilleDeParis,
    RepereCylindriqueDuNivellementGeneral,
    RepereLocal,
    RepereHexagonal,
    RepereLocalRepereDansUnSystemeLocal,
    EchelleHydrometrique,
    RepereBoule,
    RepereItalien,
    RepereDeCrue,
    RepereOctogonal,
    RepereReconstruction,
    RepereEDF,
    RepereSNCF,
    RepereCadastre,
    RepereAllemand,
    RepereBelge,
    RepereLuxembourgeois,
    RepereSuisse,
    RepereEspagnol,
    RepereVilleDeMarseille,
    TraitDeCrue,
    Borne,
    RepereSHOMServiceHydrographiqueEtOceanographiqueDeLaMarine,
    RepereFondamental,
    Tube,
    RepereIPGInstitutDePhysiqueDuGlobe,
    RepereConique,
    RepereEnFonteTriangulaire,
}

impl RnTypeCode {
    /// The number of this variant's wire code.
    pub open spec fn number(self) -> int {
        match self {
            RnTypeCode::Inconnu => 0,
            RnTypeCode::RepereConsole => 1,
            RnTypeCode::Rivet => 7,
            RnTypeCode::RepereBourdaloue => 8,
            RnTypeCode::ReperePLMCheminDeFerParisLyonMediterranee => 9,
            RnTypeCode::RepereMRUMinistereReconstructionUrbanisme => 10,
            RnTypeCode::ReperePontsEtChaussees => 11,
            RnTypeCode::RepereNavigation => 12,
            RnTypeCode::RepereVilleDeParis => 13,
            RnTypeCode::RepereCylindriqueDuNivellementGeneral => 14,
            RnTypeCode::RepereLocal => 15,
            RnTypeCode::RepereHexagonal => 16,
            RnTypeCode::RepereLocalRepereDansUnSystemeLocal => 17,
            RnTypeCode::EchelleHydrometrique => 18,
            RnTypeCode::RepereBoule => 19,
            RnTypeCode::RepereItalien => 20,
            RnTypeCode::RepereDeCrue => 21,
            RnTypeCode::RepereOctogonal => 22,
            RnTypeCode::RepereReconstruction => 23,
            RnTypeCode::RepereEDF => 24,
            RnTypeCode::RepereSNCF => 25,
            RnTypeCode::RepereCadastre => 26,
            RnTypeCode::RepereAllemand => 27,
            RnTypeCode::RepereBelge => 28,
            RnTypeCode::RepereLuxembourgeois => 29,
            RnTypeCode::RepereSuisse => 30,
            RnTypeCode::RepereEspagnol => 31,
            RnTypeCode::RepereVilleDeMarseille => 32,
            RnTypeCode::TraitDeCrue => 33,
            RnTypeCode::Borne => 34,
            RnTypeCode::RepereSHOMServiceHydrographiqueEtOceanographiqueDeLaMarine => 35,
            RnTypeCode::RepereFondamental => 36,
            RnTypeCode::Tube => 37,
            RnTypeCode::RepereIPGInstitutDePhysiqueDuGlobe => 38,
            RnTypeCode::RepereConique => 39,
            RnTypeCode::RepereEnFonteTriangulaire => 40,
        }
    }

    /// The variant with the number `n`, if any.
    pub open spec fn from_number(n: int) -> Option<Self> {
        if n == 0 {
            Some(RnTypeCode::Inconnu)
        } else if n == 1 {
            Some(RnTypeCode::RepereConsole)
        } else if n == 7 {
            Some(RnTypeCode::Rivet)
        } else if n == 8 {
            Some(RnTypeCode::RepereBourdaloue)
        } else if n == 9 {
            Some(RnTypeCode::ReperePLMCheminDeFerParisLyonMediterranee)
        } else if n == 10 {
            Some(RnTypeCode::RepereMRUMinistereReconstructionUrbanisme)
        } else if n == 11 {
            Some(RnTypeCode::ReperePontsEtChaussees)
        } else if n == 12 {
            Some(RnTypeCode::RepereNavigation)
        } else if n == 13 {
            Some(RnTypeCode::RepereVilleDeParis)
        } else if n == 14 {
            Some(RnTypeCode::RepereCylindriqueDuNivellementGeneral)
        } else if n == 15 {
            Some(RnTypeCode::RepereLocal)
        } else if n == 16 {
            Some(RnTypeCode::RepereHexagonal)
        } else if n == 17 {
            Some(RnTypeCode::RepereLocalRepereDansUnSystemeLocal)
        } else if n == 18 {
            Some(RnTypeCode::EchelleHydrometrique)
        } else if n == 19 {
            Some(RnTypeCode::RepereBoule)
        } else if n == 20 {
            Some(RnTypeCode::RepereItalien)
        } else if n == 21 {
            Some(RnTypeCode::RepereDeCrue)
        } else if n == 22 {
            Some(RnTypeCode::RepereOctogonal)
        } else if n == 23 {
            Some(RnTypeCode::RepereReconstruction)
        } else if n == 24 {
            Some(RnTypeCode::RepereEDF)
        } else if n == 25 {
            Some(RnTypeCode::RepereSNCF)
        } else if n == 26 {
            Some(RnTypeCode::RepereCadastre)
        } else if n == 27 {
            Some(RnTypeCode::RepereAllemand)
        } else if n == 28 {
            Some(RnTypeCode::RepereBelge)
        } else if n == 29 {
            Some(RnTypeCode::RepereLuxembourgeois)
        } else if n == 30 {
            Some(RnTypeCode::RepereSuisse)
        } else if n == 31 {
            Some(RnTypeCode::RepereEspagnol)
        } else if n == 32 {
            Some(RnTypeCode::RepereVilleDeMarseille)
        } else if n == 33 {
            Some(RnTypeCode::TraitDeCrue)
        } else if n == 34 {
            Some(RnTypeCode::Borne)
        } else if n == 35 {
            Some(RnTypeCode::RepereSHOMServiceHydrographiqueEtOceanographiqueDeLaMarine)
        } else if n == 36 {
            Some(RnTypeCode::RepereFondamental)
        } else if n == 37 {
            Some(RnTypeCode::Tube)
        } else if n == 38 {
            Some(RnTypeCode::RepereIPGInstitutDePhysiqueDuGlobe)
        } else if n == 39 {
            Some(RnTypeCode::RepereConique)
        } else if n == 40 {
            Some(RnTypeCode::RepereEnFonteTriangulaire)
        } else {
            None
        }
    }

    /// The variant whose wire code is `w`, if any: three decimal digits.
    pub open spec fn decode(w: Seq<char>) -> Option<Self> {
        if w.len() == 3 && all_digits(w) {
            Self::from_number(digits_value(w))
        } else {
            None
        }
    }

    /// The display label of this variant.
    pub open spec fn label_spec(self) -> Seq<char> {
        match self {
            RnTypeCode::Inconnu => "Inconnu"@,
            RnTypeCode::RepereConsole => "Repère console"@,
            RnTypeCode::Rivet => "Rivet"@,
            RnTypeCode::RepereBourdaloue => "Repère Bourdalouë"@,
            RnTypeCode::ReperePLMCheminDeFerParisLyonMediterranee => "Repère PLM (Chemin de fer Paris Lyon Méditerranée)"@,
            RnTypeCode::RepereMRUMinistereReconstructionUrbanisme => "Repère MRU (Ministère Reconstruction Urbanisme)"@,
            RnTypeCode::ReperePontsEtChaussees => "Repère ponts et chaussées"@,
            RnTypeCode::RepereNavigation => "Repère navigation"@,
            RnTypeCode::RepereVilleDeParis => "Repère ville de Paris"@,
            RnTypeCode::RepereCylindriqueDuNivellementGeneral => "Repère cylindrique du Nivellement Général"@,
            RnTypeCode::RepereLocal => "Repère local"@,
            RnTypeCode::RepereHexagonal => "Repère hexagonal"@,
            RnTypeCode::RepereLocalRepereDansUnSystemeLocal => "Repère local, repère dans un système local"@,
            RnTypeCode::EchelleHydrometrique => "Échelle hydrométrique"@,
            RnTypeCode::RepereBoule => "Repère boule"@,
            RnTypeCode::RepereItalien => "Repère italien"@,
            RnTypeCode::RepereDeCrue => "Repère de crue"@,
            RnTypeCode::RepereOctogonal => "Repère octogonal"@,
            RnTypeCode::RepereReconstruction => "Repère reconstruction"@,
            RnTypeCode::RepereEDF => "Repère EDF"@,
            RnTypeCode::RepereSNCF => "Repère SNCF"@,
            RnTypeCode::RepereCadastre => "Repère cadastre"@,
            RnTypeCode::RepereAllemand => "Repère allemand"@,
            RnTypeCode::RepereBelge => "Repère belge"@,
            RnTypeCode::RepereLuxembourgeois => "Repère luxembourgeois"@,
            RnTypeCode::RepereSuisse => "Repère suisse"@,
            RnTypeCode::RepereEspagnol => "Repère espagnol"@,
            RnTypeCode::RepereVilleDeMarseille => "Repère ville de Marseille"@,
            RnTypeCode::TraitDeCrue => "Trait de crue"@,
            RnTypeCode::Borne => "Borne"@,
            RnTypeCode::RepereSHOMServiceHydrographiqueEtOceanographiqueDeLaMarine => "Repère SHOM (Service Hydrographique et Océanographique de la Marine)"@,
            RnTypeCode::RepereFondamental => "Repère fondamental"@,
            RnTypeCode::Tube => "Tube"@,
            RnTypeCode::RepereIPGInstitutDePhysiqueDuGlobe => "Repère IPG (Institut de Physique du Globe)"@,
            RnTypeCode::RepereConique => "Repère conique"@,
            RnTypeCode::RepereEnFonteTriangulaire => "Repère en fonte triangulaire"@,
        }
    }

    fn from_number_exec(n: u64) -> (r: Option<Self>)
        ensures
            r == Self::from_number(n as int),
    {
        if n == 0 {
            Some(RnTypeCode::Inconnu)
        } else if n == 1 {
            Some(RnTypeCode::RepereConsole)
        } else if n == 7 {
            Some(RnTypeCode::Rivet)
        } else if n == 8 {
            Some(RnTypeCode::RepereBourdaloue)
        } else if n == 9 {
            Some(RnTypeCode::ReperePLMCheminDeFerParisLyonMediterranee)
        } else if n == 10 {
            Some(RnTypeCode::RepereMRUMinistereReconstructionUrbanisme)
        } else if n == 11 {
            Some(RnTypeCode::ReperePontsEtChaussees)
        } else if n == 12 {
            Some(RnTypeCode::RepereNavigation)
        } else if n == 13 {
            Some(RnTypeCode::RepereVilleDeParis)
        } else if n == 14 {
            Some(RnTypeCode::RepereCylindriqueDuNivellementGeneral)
        } else if n == 15 {
            Some(RnTypeCode::RepereLocal)
        } else if n == 16 {
            Some(RnTypeCode::RepereHexagonal)
        } else if n == 17 {
            Some(RnTypeCode::RepereLocalRepereDansUnSystemeLocal)
        } else if n == 18 {
            Some(RnTypeCode::EchelleHydrometrique)
        } else if n == 19 {
            Some(RnTypeCode::RepereBoule)
        } else if n == 20 {
            Some(RnTypeCode::RepereItalien)
        } else if n == 21 {
            Some(RnTypeCode::RepereDeCrue)
        } else if n == 22 {
            Some(RnTypeCode::RepereOctogonal)
        } else if n == 23 {
            Some(RnTypeCode::RepereReconstruction)
        } else if n == 24 {
            Some(RnTypeCode::RepereEDF)
        } else if n == 25 {
            Some(RnTypeCode::RepereSNCF)
        } else if n == 26 {
            Some(RnTypeCode::RepereCadastre)
        } else if n == 27 {
            Some(RnTypeCode::RepereAllemand)
        } else if n == 28 {
            Some(RnTypeCode::RepereBelge)
        } else if n == 29 {
            Some(RnTypeCode::RepereLuxembourgeois)
        } else if n == 30 {
            Some(RnTypeCode::RepereSuisse)
        } else if n == 31 {
            Some(RnTypeCode::RepereEspagnol)
        } else if n == 32 {
            Some(RnTypeCode::RepereVilleDeMarseille)
        } else if n == 33 {
            Some(RnTypeCode::TraitDeCrue)
        } else if n == 34 {
            Some(RnTypeCode::Borne)
        } else if n == 35 {
            Some(RnTypeCode::RepereSHOMServiceHydrographiqueEtOceanographiqueDeLaMarine)
        } else if n == 36 {
            Some(RnTypeCode::RepereFondamental)
        } else if n == 37 {
            Some(RnTypeCode::Tube)
        } else if n == 38 {
            Some(RnTypeCode::RepereIPGInstitutDePhysiqueDuGlobe)
        } else if n == 39 {
            Some(RnTypeCode::RepereConique)
        } else if n == 40 {
            Some(RnTypeCode::RepereEnFonteTriangulaire)
        } else {
            None
        }
    }

    fn number_exec(&self) -> (r: u64)
        ensures
            r == self.number(),
    {
        match self {
            RnTypeCode::Inconnu => 0,
            RnTypeCode::RepereConsole => 1,
            RnTypeCode::Rivet => 7,
            RnTypeCode::RepereBourdaloue => 8,
            RnTypeCode::ReperePLMCheminDeFerParisLyonMediterranee => 9,
            RnTypeCode::RepereMRUMinistereReconstructionUrbanisme => 10,
            RnTypeCode::ReperePontsEtChaussees => 11,
            RnTypeCode::RepereNavigation => 12,
            RnTypeCode::RepereVilleDeParis => 13,
            RnTypeCode::RepereCylindriqueDuNivellementGeneral => 14,
            RnTypeCode::RepereLocal => 15,
            RnTypeCode::RepereHexagonal => 16,
            RnTypeCode::RepereLocalRepereDansUnSystemeLocal => 17,
            RnTypeCode::EchelleHydrometrique => 18,
            RnTypeCode::RepereBoule => 19,
            RnTypeCode::RepereItalien => 20,
            RnTypeCode::RepereDeCrue => 21,
            RnTypeCode::RepereOctogonal => 22,
            RnTypeCode::RepereReconstruction => 23,
            RnTypeCode::RepereEDF => 24,
            RnTypeCode::RepereSNCF => 25,
            RnTypeCode::RepereCadastre => 26,
            RnTypeCode::RepereAllemand => 27,
            RnTypeCode::RepereBelge => 28,
            RnTypeCode::RepereLuxembourgeois => 29,
            RnTypeCode::RepereSuisse => 30,
            RnTypeCode::RepereEspagnol => 31,
            RnTypeCode::RepereVilleDeMarseille => 32,
            RnTypeCode::TraitDeCrue => 33,
            RnTypeCode::Borne => 34,
            RnTypeCode::RepereSHOMServiceHydrographiqueEtOceanographiqueDeLaMarine => 35,
            RnTypeCode::RepereFondamental => 36,
            RnTypeCode::Tube => 37,
            RnTypeCode::RepereIPGInstitutDePhysiqueDuGlobe => 38,
            RnTypeCode::RepereConique => 39,
            RnTypeCode::RepereEnFonteTriangulaire => 40,
        }
    }

    /// Decodes a wire code; an unknown one is an error that names it.
    pub fn from_wire(w: &str) -> (r: Result<Self, UnknownCodeError>)
        ensures
            r matches Ok(v) ==> Self::decode(w@) == Some(v),
            r matches Err(e) ==> Self::decode(w@) is None && e.is_text(CodeTable::RnType, w@),
    {
        let cs = chars_of(w);
        if cs.len() != 3 {
            return Err(unknown_text(CodeTable::RnType, w));
        }
        let mut i: usize = 0;
        while i < 3
            invariant
                cs@ == w@,
                cs@.len() == 3,
                i <= 3,
                forall|k: int| 0 <= k < i ==> is_digit(#[trigger] cs@[k]),
            decreases 3 - i,
        {
            if !('0' <= cs[i] && cs[i] <= '9') {
                assert(!all_digits(w@));
                return Err(unknown_text(CodeTable::RnType, w));
            }
            i = i + 1;
        }
        assert(all_digits(w@));
        let d0: u64 = (cs[0] as u32 - '0' as u32) as u64;
        let d1: u64 = (cs[1] as u32 - '0' as u32) as u64;
        let d2: u64 = (cs[2] as u32 - '0' as u32) as u64;
        proof {
            let s = w@;
            assert(s.drop_last().drop_last().drop_last() =~= Seq::<char>::empty());
            assert(s.drop_last().drop_last().last() == s[0]);
            assert(s.drop_last().last() == s[1]);
            assert(d0 == digit_value(s[0]));
            assert(d1 == digit_value(s[1]));
            assert(d2 == digit_value(s[2]));
            assert(digits_value(s.drop_last().drop_last().drop_last()) == 0);
            assert(digits_value(s.drop_last().drop_last()) == d0);
            assert(digits_value(s.drop_last()) == d0 * 10 + d1);
            assert(digits_value(s) == d0 * 100 + d1 * 10 + d2);
        }
        match Self::from_number_exec(d0 * 100 + d1 * 10 + d2) {
            Some(v) => Ok(v),
            None => Err(unknown_text(CodeTable::RnType, w)),
        }
    }

    /// The wire code of this variant.
    pub fn wire(&self) -> (r: String)
        ensures
            r@ == three_digits(self.number()),
    {
        let n = self.number_exec();
        let mut r = String::new();
        append_decimal(&mut r, n / 100);
        append_decimal(&mut r, (n / 10) % 10);
        append_decimal(&mut r, n % 10);
        assert(r@ =~= three_digits(self.number()));
        r
    }

    /// The display label of this variant.
    pub fn label(&self) -> (r: &'static str)
        ensures
            r@ == self.label_spec(),
    {
        match self {
            RnTypeCode::Inconnu => "Inconnu",
            RnTypeCode::RepereConsole => "Repère console",
            RnTypeCode::Rivet => "Rivet",
            RnTypeCode::RepereBourdaloue => "Repère Bourdalouë",
            RnTypeCode::ReperePLMCheminDeFerParisLyonMediterranee => "Repère PLM (Chemin de fer Paris Lyon Méditerranée)",
            RnTypeCode::RepereMRUMinistereReconstructionUrbanisme => "Repère MRU (Ministère Reconstruction Urbanisme)",
            RnTypeCode::ReperePontsEtChaussees => "Repère ponts et chaussées",
            RnTypeCode::RepereNavigation => "Repère navigation",
            RnTypeCode::RepereVilleDeParis => "Repère ville de Paris",
            RnTypeCode::RepereCylindriqueDuNivellementGeneral => "Repère cylindrique du Nivellement Général",
            RnTypeCode::RepereLocal => "Repère local",
            RnTypeCode::RepereHexagonal => "Repère hexagonal",
            RnTypeCode::RepereLocalRepereDansUnSystemeLocal => "Repère local, repère dans un système local",
            RnTypeCode::EchelleHydrometrique => "Échelle hydrométrique",
            RnTypeCode::RepereBoule => "Repère boule",
            RnTypeCode::RepereItalien => "Repère italien",
            RnTypeCode::RepereDeCrue => "Repère de crue",
            RnTypeCode::RepereOctogonal => "Repère octogonal",
            RnTypeCode::RepereReconstruction => "Repère reconstruction",
            RnTypeCode::RepereEDF => "Repère EDF",
            RnTypeCode::RepereSNCF => "Repère SNCF",
            RnTypeCode::RepereCadastre => "Repère cadastre",
            RnTypeCode::RepereAllemand => "Repère allemand",
            RnTypeCode::RepereBelge => "Repère belge",
            RnTypeCode::RepereLuxembourgeois => "Repère luxembourgeois",
            RnTypeCode::RepereSuisse => "Repère suisse",
            RnTypeCode::RepereEspagnol => "Repère espagnol",
            RnTypeCode::RepereVilleDeMarseille => "Repère ville de Marseille",
            RnTypeCode::TraitDeCrue => "Trait de crue",
            RnTypeCode::Borne => "Borne",
            RnTypeCode::RepereSHOMServiceHydrographiqueEtOceanographiqueDeLaMarine => "Repère SHOM (Service Hydrographique et Océanographique de la Marine)",
            RnTypeCode::RepereFondamental => "Repère fondamental",
            RnTypeCode::Tube => "Tube",
            RnTypeCode::RepereIPGInstitutDePhysiqueDuGlobe => "Repère IPG (Institut de Physique du Globe)",
            RnTypeCode::RepereConique => "Repère conique",
            RnTypeCode::RepereEnFonteTriangulaire => "Repère en fonte triangulaire",
        }
    }
}

/// The state of a benchmark.
#[derive(Clone, Copy, Debug, PartialEq, Eq, Structural)]
pub enum RnEtatCode {
    Detruit,
    BonEtat,
    Imprenable,
    MauvaisEtat,
    NonRetrouve,
    PresumeDeplace,
    DetruitApresObservation,
}

impl RnEtatCode {
    /// The one-letter wire code of this variant.
    pub open spec fn letter(self) -> char {
        match self {
            RnEtatCode::Detruit => 'D',
            RnEtatCode::BonEtat => 'E',
            RnEtatCode::Imprenable => 'I',
            RnEtatCode::MauvaisEtat => 'M',
            RnEtatCode::NonRetrouve => 'N',
            RnEtatCode::PresumeDeplace => 'P',
            RnEtatCode::DetruitApresObservation => 'Y',
        }
    }

    /// The variant whose wire code is `w`, if any.
    pub open spec fn decode(w: Seq<char>) -> Option<Self> {
        if w.len() != 1 {
            None
        } else if w[0] == 'D' {
            Some(RnEtatCode::Detruit)
        } else if w[0] == 'E' {
            Some(RnEtatCode::BonEtat)
        } else if w[0] == 'I' {
            Some(RnEtatCode::Imprenable)
        } else if w[0] == 'M' {
            Some(RnEtatCode::MauvaisEtat)
        } else if w[0] == 'N' {
            Some(RnEtatCode::NonRetrouve)
        } else if w[0] == 'P' {
            Some(RnEtatCode::PresumeDeplace)
        } else if w[0] == 'Y' {
            Some(RnEtatCode::DetruitApresObservation)
        } else {
            None
        }
    }

    /// The display label of this variant.
    pub open spec fn label_spec(self) -> Seq<char> {
        match self {
            RnEtatCode::Detruit => "Détruit"@,
            RnEtatCode::BonEtat => "Bon état"@,
            RnEtatCode::Imprenable => "Imprenable"@,
            RnEtatCode::MauvaisEtat => "Mauvais état"@,
            RnEtatCode::NonRetrouve => "Non retrouvé"@,
            RnEtatCode::PresumeDeplace => "Présumé déplacé"@,
            RnEtatCode::DetruitApresObservation => "Détruit après observation"@,
        }
    }

    /// Decodes a wire code; an unknown one is an error that names it.
    pub fn from_wire(w: &str) -> (r: Result<Self, UnknownCodeError>)
        ensures
            r matches Ok(v) ==> Self::decode(w@) == Some(v),
            r matches Err(e) ==> Self::decode(w@) is None && e.is_text(CodeTable::RnEtat, w@),
    {
        match single_char(w) {
            Some('D') => Ok(RnEtatCode::Detruit),
            Some('E') => Ok(RnEtatCode::BonEtat),
            Some('I') => Ok(RnEtatCode::Imprenable),
            Some('M') => Ok(RnEtatCode::MauvaisEtat),
            Some('N') => Ok(RnEtatCode::NonRetrouve),
            Some('P') => Ok(RnEtatCode::PresumeDeplace),
            Some('Y') => Ok(RnEtatCode::DetruitApresObservation),
            _ => Err(unknown_text(CodeTable::RnEtat, w)),
        }
    }

    /// The wire code of this variant.
    pub fn wire(&self) -> (r: &'static str)
        ensures
            r@ == seq![self.letter()],
    {
        proof {
            reveal_strlit("D");
            reveal_strlit("E");
            reveal_strlit("I");
            reveal_strlit("M");
            reveal_strlit("N");
            reveal_strlit("P");
            reveal_strlit("Y");
        }
        match self {
            RnEtatCode::Detruit => "D",
            RnEtatCode::BonEtat => "E",
            RnEtatCode::Imprenable => "I",
            RnEtatCode::MauvaisEtat => "M",
            RnEtatCode::NonRetrouve => "N",
            RnEtatCode::PresumeDeplace => "P",
            RnEtatCode::DetruitApresObservation => "Y",
        }
    }

    /// The display label of this variant.
    pub fn label(&self) -> (r: &'static str)
        ensures
            r@ == self.label_spec(),
    {
        match self {
            RnEtatCode::Detruit => "Détruit",
            RnEtatCode::BonEtat => "Bon état",
            RnEtatCode::Imprenable => "Imprenable",
            RnEtatCode::MauvaisEtat => "Mauvais état",
            RnEtatCode::NonRetrouve => "Non retrouvé",
            RnEtatCode::PresumeDeplace => "Présumé déplacé",
            RnEtatCode::DetruitApresObservation => "Détruit après observation",
        }
    }
}

/// The last action carried out on a benchmark.
#[derive(Clone, Copy, Debug, PartialEq, Eq, Structural)]
pub enum RnActionCode {
    Determination,
    Visite,
}

impl RnActionCode {
    /// The one-letter wire code of this variant.
    pub open spec fn letter(self) -> char {
        match self {
            RnActionCode::Determination => 'D',
            RnActionCode::Visite => 'V',
        }
    }

    /// The variant whose wire code is `w`, if any.
    pub open spec fn decode(w: Seq<char>) -> Option<Self> {
        if w.len() != 1 {
            None
        } else if w[0] == 'D' {
            Some(RnActionCode::Determination)
        } else if w[0] == 'V' {
            Some(RnActionCode::Visite)
        } else {
            None
        }
    }

    /// The display label of this variant.
    pub open spec fn label_spec(self) -> Seq<char> {
        match self {
            RnActionCode::Determination => "Détermination"@,
            RnActionCode::Visite => "Visite"@,
        }
    }

    /// Decodes a wire code; an unknown one is an error that names it.
    pub fn from_wire(w: &str) -> (r: Result<Self, UnknownCodeError>)
        ensures
            r matches Ok(v) ==> Self::decode(w@) == Some(v),
            r matches Err(e) ==> Self::decode(w@) is None && e.is_text(CodeTable::RnAction, w@),
    {
        match single_char(w) {
            Some('D') => Ok(RnActionCode::Determination),
            Some('V') => Ok(RnActionCode::Visite),
            _ => Err(unknown_text(CodeTable::RnAction, w)),
        }
    }

    /// The wire code of this variant.
    pub fn wire(&self) -> (r: &'static str)
        ensures
            r@ == seq![self.letter()],
    {
        proof {
            reveal_strlit("D");
            reveal_strlit("V");
        }
        match self {
            RnActionCode::Determination => "D",
            RnActionCode::Visite => "V",
        }
    }

    /// The display label of this variant.
    pub fn label(&self) -> (r: &'static str)
        ensures
            r@ == self.label_spec(),
    {
        match self {
            RnActionCode::Determination => "Détermination",
            RnActionCode::Visite => "Visite",
        }
    }
}

/// The side of the followed route on which a benchmark stands.
///
/// The published schema lists `D`, `G` and `M` only; `V` occurs in real payloads
/// and decodes to `TheAPIDocumentationIsWrong`.
#[derive(Clone, Copy, Debug, PartialEq, Eq, Structural)]
pub enum VoieCoteCode {
    Droit,
    Gauche,
    Milieu,
    TheAPIDocumentationIsWrong,
}

impl VoieCoteCode {
    /// The one-letter wire code of this variant.
    pub open spec fn letter(self) -> char {
        match self {
            VoieCoteCode::Droit => 'D',
            VoieCoteCode::Gauche => 'G',
            VoieCoteCode::Milieu => 'M',
            VoieCoteCode::TheAPIDocumentationIsWrong => 'V',
        }
    }

    /// The variant whose wire code is `w`, if any.
    pub open spec fn decode(w: Seq<char>) -> Option<Self> {
        if w.len() != 1 {
            None
        } else if w[0] == 'D' {
            Some(VoieCoteCode::Droit)
        } else if w[0] == 'G' {
            Some(VoieCoteCode::Gauche)
        } else if w[0] == 'M' {
            Some(VoieCoteCode::Milieu)
        } else if w[0] == 'V' {
            Some(VoieCoteCode::TheAPIDocumentationIsWrong)
        } else {
            None
        }
    }

    /// The display label of this variant.
    pub open spec fn label_spec(self) -> Seq<char> {
        match self {
            VoieCoteCode::Droit => "Droit"@,
            VoieCoteCode::Gauche => "Gauche"@,
            VoieCoteCode::Milieu => "Milieu"@,
            VoieCoteCode::TheAPIDocumentationIsWrong => "The API documentation is wrong!"@,
        }
    }

    /// Decodes a wire code; an unknown one is an error that names it.
    pub fn from_wire(w: &str) -> (r: Result<Self, UnknownCodeError>)
        ensures
            r matches Ok(v) ==> Self::decode(w@) == Some(v),
            r matches Err(e) ==> Self::decode(w@) is None && e.is_text(CodeTable::VoieCote, w@),
    {
        match single_char(w) {
            Some('D') => Ok(VoieCoteCode::Droit),
            Some('G') => Ok(VoieCoteCode::Gauche),
            Some('M') => Ok(VoieCoteCode::Milieu),
            Some('V') => Ok(VoieCoteCode::TheAPIDocumentationIsWrong),
            _ => Err(unknown_text(CodeTable::VoieCote, w)),
        }
    }

    /// The wire code of this variant.
    pub fn wire(&self) -> (r: &'static str)
        ensures
            r@ == seq![self.letter()],
    {
        proof {
            reveal_strlit("D");
            reveal_strlit("G");
            reveal_strlit("M");
            reveal_strlit("V");
        }
        match self {
            VoieCoteCode::Droit => "D",
            VoieCoteCode::Gauche => "G",
            VoieCoteCode::Milieu => "M",
            VoieCoteCode::TheAPIDocumentationIsWrong => "V",
        }
    }

    /// The display label of this variant.
    pub fn label(&self) -> (r: &'static str)
        ensures
            r@ == self.label_spec(),
    {
        match self {
            VoieCoteCode::Droit => "Droit",
            VoieCoteCode::Gauche => "Gauche",
            VoieCoteCode::Milieu => "Milieu",
            VoieCoteCode::TheAPIDocumentationIsWrong => "The API documentation is wrong!",
        }
    }
}

/// Whether a benchmark can be used with GPS.
#[derive(Clone, Copy, Debug, PartialEq, Eq, Structural)]
pub enum RnGPSExploitCode {
    ExploitableDirectementParGPS,
    InexploitableParGPS,
    ExploitableParGPSDepuisUneStationExcentree,
    Empty,
}

impl RnGPSExploitCode {
    /// The one-letter wire code of this variant.
    pub open spec fn letter(self) -> char {
        match self {
            RnGPSExploitCode::ExploitableDirectementParGPS => 'E',
            RnGPSExploitCode::InexploitableParGPS => 'I',
            RnGPSExploitCode::ExploitableParGPSDepuisUneStationExcentree => 'R',
            RnGPSExploitCode::Empty => 'N',
        }
    }

    /// The variant whose wire code is `w`, if any.
    pub open spec fn decode(w: Seq<char>) -> Option<Self> {
        if w.len() != 1 {
            None
        } else if w[0] == 'E' {
            Some(RnGPSExploitCode::ExploitableDirectementParGPS)
        } else if w[0] == 'I' {
            Some(RnGPSExploitCode::InexploitableParGPS)
        } else if w[0] == 'R' {
            Some(RnGPSExploitCode::ExploitableParGPSDepuisUneStationExcentree)
        } else if w[0] == 'N' {
            Some(RnGPSExploitCode::Empty)
        } else {
            None
        }
    }

    /// The display label of this variant.
    pub open spec fn label_spec(self) -> Seq<char> {
        match self {
            RnGPSExploitCode::ExploitableDirectementParGPS => "Exploitable directement par GPS"@,
            RnGPSExploitCode::InexploitableParGPS => "Inexploitable par GPS"@,
            RnGPSExploitCode::ExploitableParGPSDepuisUneStationExcentree => "Exploitable par GPS depuis une station excentrée"@,
            RnGPSExploitCode::Empty => ""@,
        }
    }

    /// Decodes a wire code; an unknown one is an error that names it.
    pub fn from_wire(w: &str) -> (r: Result<Self, UnknownCodeError>)
        ensures
            r matches Ok(v) ==> Self::decode(w@) == Some(v),
            r matches Err(e) ==> Self::decode(w@) is None && e.is_text(CodeTable::RnGpsExploit, w@),
    {
        match single_char(w) {
            Some('E') => Ok(RnGPSExploitCode::ExploitableDirectementParGPS),
            Some('I') => Ok(RnGPSExploitCode::InexploitableParGPS),
            Some('R') => Ok(RnGPSExploitCode::ExploitableParGPSDepuisUneStationExcentree),
            Some('N') => Ok(RnGPSExploitCode::Empty),
            _ => Err(unknown_text(CodeTable::RnGpsExploit, w)),
        }
    }

    /// The wire code of this variant.
    pub fn wire(&self) -> (r: &'static str)
        ensures
            r@ == seq![self.letter()],
    {
        proof {
            reveal_strlit("E");
            reveal_strlit("I");
            reveal_strlit("R");
            reveal_strlit("N");
        }
        match self {
            RnGPSExploitCode::ExploitableDirectementParGPS => "E",
            RnGPSExploitCode::InexploitableParGPS => "I",
            RnGPSExploitCode::ExploitableParGPSDepuisUneStationExcentree => "R",
            RnGPSExploitCode::Empty => "N",
        }
    }

    /// The display label of this variant.
    pub fn label(&self) -> (r: &'static str)
        ensures
            r@ == self.label_spec(),
    {
        match self {
            RnGPSExploitCode::ExploitableDirectementParGPS => "Exploitable directement par GPS",
            RnGPSExploitCode::InexploitableParGPS => "Inexploitable par GPS",
            RnGPSExploitCode::ExploitableParGPSDepuisUneStationExcentree => "Exploitable par GPS depuis une station excentrée",
            RnGPSExploitCode::Empty => "",
        }
    }
}

/// The planimetric reference system of a benchmark's metric coordinates.
#[derive(Clone, Copy, Debug, PartialEq, Eq, Structural)]
pub enum NivfRefEnCode {
    SystemeRGF93v1ETRS89ProjectionLAMBERT93,
}

impl NivfRefEnCode {
    /// The variant that the wire value `n` denotes, if any.
    pub open spec fn decode(n: u64) -> Option<Self> {
        if n == 702400037010140 {
            Some(NivfRefEnCode::SystemeRGF93v1ETRS89ProjectionLAMBERT93)
        } else {
            None
        }
    }

    /// The wire value written for this variant (the first of its values).
    pub open spec fn wire_spec(self) -> u64 {
        match self {
            NivfRefEnCode::SystemeRGF93v1ETRS89ProjectionLAMBERT93 => 702400037010140,
        }
    }

    /// The display label of this variant.
    pub open spec fn label_spec(self) -> Seq<char> {
        match self {
            NivfRefEnCode::SystemeRGF93v1ETRS89ProjectionLAMBERT93 => "Système : RGF93 v1 (ETRS89) - Projection : LAMBERT-93"@,
        }
    }

    /// Decodes a wire value; an unknown one is an error that names it.
    pub fn from_wire(n: u64) -> (r: Result<Self, UnknownCodeError>)
        ensures
            r matches Ok(v) ==> Self::decode(n) == Some(v),
            r matches Err(e) ==> Self::decode(n) is None && e.is_number(CodeTable::NivfRefEn, n),
    {
        if n == 702400037010140 {
            Ok(NivfRefEnCode::SystemeRGF93v1ETRS89ProjectionLAMBERT93)
        } else {
            Err(UnknownCodeError { table: CodeTable::NivfRefEn, wire: WireValue::Number(n) })
        }
    }

    /// The wire value written for this variant.
    pub fn wire(&self) -> (r: u64)
        ensures
            r == self.wire_spec(),
    {
        match self {
            NivfRefEnCode::SystemeRGF93v1ETRS89ProjectionLAMBERT93 => 702400037010140,
        }
    }

    /// The display label of this variant.
    pub fn label(&self) -> (r: &'static str)
        ensures
            r@ == self.label_spec(),
    {
        match self {
            NivfRefEnCode::SystemeRGF93v1ETRS89ProjectionLAMBERT93 => "Système : RGF93 v1 (ETRS89) - Projection : LAMBERT-93",
        }
    }
}

/// The altimetric realisation in which an altitude is given.
#[derive(Clone, Copy, Debug, PartialEq, Eq, Structural)]
pub enum NivfReaCode {
    NgfIgn1969,
    NgfIgn1978,
}

impl NivfReaCode {
    /// The variant that the wire value `n` denotes, if any.
    pub open spec fn decode(n: u64) -> Option<Self> {
        if n == 2 {
            Some(NivfReaCode::NgfIgn1969)
        } else if n == 3 {
            Some(NivfReaCode::NgfIgn1978)
        } else {
            None
        }
    }

    /// The wire value written for this variant (the first of its values).
    pub open spec fn wire_spec(self) -> u64 {
        match self {
            NivfReaCode::NgfIgn1969 => 2,
            NivfReaCode::NgfIgn1978 => 3,
        }
    }

    /// The display label of this variant.
    pub open spec fn label_spec(self) -> Seq<char> {
        match self {
            NivfReaCode::NgfIgn1969 => "NGF-IGN 1969"@,
            NivfReaCode::NgfIgn1978 => "NGF-IGN 1978"@,
        }
    }

    /// Decodes a wire value; an unknown one is an error that names it.
    pub fn from_wire(n: u64) -> (r: Result<Self, UnknownCodeError>)
        ensures
            r matches Ok(v) ==> Self::decode(n) == Some(v),
            r matches Err(e) ==> Self::decode(n) is None && e.is_number(CodeTable::NivfRea, n),
    {
        if n == 2 {
            Ok(NivfReaCode::NgfIgn1969)
        } else if n == 3 {
            Ok(NivfReaCode::NgfIgn1978)
        } else {
            Err(UnknownCodeError { table: CodeTable::NivfRea, wire: WireValue::Number(n) })
        }
    }

    /// The wire value written for this variant.
    pub fn wire(&self) -> (r: u64)
        ensures
            r == self.wire_spec(),
    {
        match self {
            NivfReaCode::NgfIgn1969 => 2,
            NivfReaCode::NgfIgn1978 => 3,
        }
    }

    /// The display label of this variant.
    pub fn label(&self) -> (r: &'static str)
        ensures
            r@ == self.label_spec(),
    {
        match self {
            NivfReaCode::NgfIgn1969 => "NGF-IGN 1969",
            NivfReaCode::NgfIgn1978 => "NGF-IGN 1978",
        }
    }
}

/// The kind of height that an altitude is.
///
/// Several wire values denote the same kind: the table is many-to-one.
#[derive(Clone, Copy, Debug, PartialEq, Eq, Structural)]
pub enum HTypeCode {
    AltitudeNormale,
    AltitudeOrthometrique,
    AltitudeProvisoire,
}

impl HTypeCode {
    /// The variant that the wire value `n` denotes, if any.
    pub open spec fn decode(n: u64) -> Option<Self> {
        if n == 2 || n == 3 {
            Some(HTypeCode::AltitudeNormale)
        } else if n == 10 || n == 11 || n == 13 || n == 14 || n == 15 || n == 16 || n == 17 || n == 18 || n == 21 || n == 23 || n == 26 || n == 29 || n == 35 || n == 37 || n == 41 || n == 44 {
            Some(HTypeCode::AltitudeOrthometrique)
        } else if n == 169 {
            Some(HTypeCode::AltitudeProvisoire)
        } else {
            None
        }
    }

    /// The wire value written for this variant (the first of its values).
    pub open spec fn wire_spec(self) -> u64 {
        match self {
            HTypeCode::AltitudeNormale => 2,
            HTypeCode::AltitudeOrthometrique => 10,
            HTypeCode::AltitudeProvisoire => 169,
        }
    }

    /// The display label of this variant.
    pub open spec fn label_spec(self) -> Seq<char> {
        match self {
            HTypeCode::AltitudeNormale => "Altitude normale"@,
            HTypeCode::AltitudeOrthometrique => "Altitude orthométrique"@,
            HTypeCode::AltitudeProvisoire => "Altitude provisoire"@,
        }
    }

    /// Decodes a wire value; an unknown one is an error that names it.
    pub fn from_wire(n: u64) -> (r: Result<Self, UnknownCodeError>)
        ensures
            r matches Ok(v) ==> Self::decode(n) == Some(v),
            r matches Err(e) ==> Self::decode(n) is None && e.is_number(CodeTable::HType, n),
    {
        if n == 2 || n == 3 {
            Ok(HTypeCode::AltitudeNormale)
        } else if n == 10 || n == 11 || n == 13 || n == 14 || n == 15 || n == 16 || n == 17 || n == 18 || n == 21 || n == 23 || n == 26 || n == 29 || n == 35 || n == 37 || n == 41 || n == 44 {
            Ok(HTypeCode::AltitudeOrthometrique)
        } else if n == 169 {
            Ok(HTypeCode::AltitudeProvisoire)
        } else {
            Err(UnknownCodeError { table: CodeTable::HType, wire: WireValue::Number(n) })
        }
    }

    /// The wire value written for this variant.
    pub fn wire(&self) -> (r: u64)
        ensures
            r == self.wire_spec(),
    {
        match self {
            HTypeCode::AltitudeNormale => 2,
            HTypeCode::AltitudeOrthometrique => 10,
            HTypeCode::AltitudeProvisoire => 169,
        }
    }

    /// The display label of this variant.
    pub fn label(&self) -> (r: &'static str)
        ensures
            r@ == self.label_spec(),
    {
        match self {
            HTypeCode::AltitudeNormale => "Altitude normale",
            HTypeCode::AltitudeOrthometrique => "Altitude orthométrique",
            HTypeCode::AltitudeProvisoire => "Altitude provisoire",
        }
    }
}

/// The kind of a GeoJSON feature; only `Feature` occurs.
#[derive(Clone, Copy, Debug, PartialEq, Eq, Structural)]
pub enum FeatureType {
    Feature,
}

impl FeatureType {
    /// The variant whose wire name is `w`, if any.
    pub open spec fn decode(w: Seq<char>) -> Option<Self> {
        if w == "Feature"@ {
            Some(FeatureType::Feature)
        } else {
            None
        }
    }

    /// Decodes a wire name; an unknown one is an error that names it.
    pub fn from_wire(w: &str) -> (r: Result<Self, UnknownCodeError>)
        ensures
            r matches Ok(v) ==> Self::decode(w@) == Some(v),
            r matches Err(e) ==> Self::decode(w@) is None && e.is_text(CodeTable::FeatureType, w@),
    {
        if str_eq(w, "Feature") {
            Ok(FeatureType::Feature)
        } else {
            Err(unknown_text(CodeTable::FeatureType, w))
        }
    }

    /// The wire name of this variant.
    pub fn wire(&self) -> (r: &'static str)
        ensures
            r@ == "Feature"@,
            Self::decode(r@) == Some(*self),
    {
        "Feature"
    }
}

/// The kind of a GeoJSON geometry; only `Point` occurs.
#[derive(Clone, Copy, Debug, PartialEq, Eq, Structural)]
pub enum GeometryType {
    Point,
}

impl GeometryType {
    /// The variant whose wire name is `w`, if any.
    pub open spec fn decode(w: Seq<char>) -> Option<Self> {
        if w == "Point"@ {
            Some(GeometryType::Point)
        } else {
            None
        }
    }

    /// Decodes a wire name; an unknown one is an error that names it.
    pub fn from_wire(w: &str) -> (r: Result<Self, UnknownCodeError>)
        ensures
            r matches Ok(v) ==> Self::decode(w@) == Some(v),
            r matches Err(e) ==> Self::decode(w@) is None && e.is_text(CodeTable::GeometryType, w@),
    {
        if str_eq(w, "Point") {
            Ok(GeometryType::Point)
        } else {
            Err(unknown_text(CodeTable::GeometryType, w))
        }
    }

    /// The wire name of this variant.
    pub fn wire(&self) -> (r: &'static str)
        ensures
            r@ == "Point"@,
            Self::decode(r@) == Some(*self),
    {
        "Point"
    }
}


/// A decimal digit's character reads back as that digit.
pub proof fn lemma_digit_char(d: int)
    requires
        0 <= d < 10,
    ensures
        is_digit(digit_char(d)),
        digit_value(digit_char(d)) == d,
{
}

/// The three-digit form of a number below 1000 reads back as that number.
pub proof fn lemma_three_digits(n: int)
    requires
        0 <= n < 1000,
    ensures
        all_digits(three_digits(n)),
        digits_value(three_digits(n)) == n,
{
    let s = three_digits(n);
    lemma_digit_char(n / 100);
    lemma_digit_char((n / 10) % 10);
    lemma_digit_char(n % 10);
    assert(s.drop_last().drop_last().drop_last() =~= Seq::<char>::empty());
    assert(s.drop_last().drop_last().last() == s[0]);
    assert(s.drop_last().last() == s[1]);
    assert(digits_value(s.drop_last().drop_last().drop_last()) == 0);
    assert(s[0] == digit_char(n / 100));
    assert(s[1] == digit_char((n / 10) % 10));
    assert(s[2] == digit_char(n % 10));
    assert(digits_value(s.drop_last().drop_last()) == n / 100);
    assert(digits_value(s.drop_last()) == (n / 100) * 10 + (n / 10) % 10);
}

/// Every variant of every code table decodes from the wire value that it writes;
/// the side-of-route table also decodes the undocumented `V`.
pub proof fn lemma_code_tables_round_trip()
    ensures
        forall|v: RnTypeCode| #[trigger] RnTypeCode::decode(three_digits(v.number())) == Some(v),
        forall|v: RnEtatCode| #[trigger] RnEtatCode::decode(seq![v.letter()]) == Some(v),
        forall|v: RnActionCode| #[trigger] RnActionCode::decode(seq![v.letter()]) == Some(v),
        forall|v: VoieCoteCode| #[trigger] VoieCoteCode::decode(seq![v.letter()]) == Some(v),
        forall|v: RnGPSExploitCode| #[trigger] RnGPSExploitCode::decode(seq![v.letter()]) == Some(v),
        forall|v: NivfRefEnCode| #[trigger] NivfRefEnCode::decode(v.wire_spec()) == Some(v),
        forall|v: NivfReaCode| #[trigger] NivfReaCode::decode(v.wire_spec()) == Some(v),
        forall|v: HTypeCode| #[trigger] HTypeCode::decode(v.wire_spec()) == Some(v),
        VoieCoteCode::decode(seq!['V']) == Some(VoieCoteCode::TheAPIDocumentationIsWrong),
{
    assert forall|v: RnTypeCode| #[trigger] RnTypeCode::decode(three_digits(v.number())) == Some(
        v,
    ) by {
        lemma_three_digits(v.number());
    }
}

} // verus!
