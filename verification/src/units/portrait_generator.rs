//! Portrait choice for new units: a random variant for the gender, and the
//! path of the portrait that shows the variant in its profession.
use vstd::prelude::*;
use vstd::string::*;
use crate::random::random_below;

verus! {

/// A unit's profession.
#[derive(Clone, Copy, PartialEq, Eq, Structural, Debug)]
pub enum ProfessionEnum {
    Farmer,
    Lumberjack,
    Miner,
    Blacksmith,
    Carpenter,
    Mason,
    Baker,
    Brewer,
    Cook,
    Fisherman,
    Hunter,
    Healer,
    Merchant,
    Scholar,
    Warrior,
    Unknown,
}

/// The portrait variants for men.
pub open spec fn male_variant_ids() -> Seq<Seq<char>> {
    seq!["02m"@, "09m"@, "13m"@, "20m"@, "22m"@, "24m"@]
}

/// The portrait variants for women.
pub open spec fn female_variant_ids() -> Seq<Seq<char>> {
    seq!["01f"@, "03f"@, "08f"@, "10f"@, "17f"@, "24f"@]
}

/// The variants drawn from for a gender: the women's for `"female"`, the men's
/// for anything else.
pub open spec fn variants_for(gender: Seq<char>) -> Seq<Seq<char>> {
    if gender == "female"@ {
        female_variant_ids()
    } else {
        male_variant_ids()
    }
}

/// The portrait file name of a profession.
pub open spec fn profession_file_name(p: ProfessionEnum) -> Seq<char> {
    match p {
        ProfessionEnum::Farmer => "Farmer"@,
        ProfessionEnum::Lumberjack => "Woodcutter"@,
        ProfessionEnum::Miner => "Miner_Coal"@,
        ProfessionEnum::Blacksmith => "Blacksmith"@,
        ProfessionEnum::Carpenter => "Luthier"@,
        ProfessionEnum::Mason => "Quarrymen"@,
        ProfessionEnum::Baker => "PastryCooker"@,
        ProfessionEnum::Brewer => "Cooker"@,
        ProfessionEnum::Cook => "Cooker"@,
        ProfessionEnum::Fisherman => "Fishermen"@,
        ProfessionEnum::Hunter => "Hunter"@,
        ProfessionEnum::Healer => "Doctor"@,
        ProfessionEnum::Merchant => "Jeweller"@,
        ProfessionEnum::Scholar => "Architect"@,
        ProfessionEnum::Warrior => "Knight"@,
        ProfessionEnum::Unknown => "Farmer"@,
    }
}

/// The relative path of a portrait:
/// `sprites/portraits/<gender>/<variant>/<variant>_<profession file name>.jpg`.
pub open spec fn portrait_url_text(gender: Seq<char>, variant_id: Seq<char>, p: ProfessionEnum) -> Seq<
    char,
> {
    "sprites/portraits/"@ + gender + "/"@ + variant_id + "/"@ + variant_id + "_"@
        + profession_file_name(p) + ".jpg"@
}

fn male_variant(i: usize) -> (s: &'static str)
    requires
        i < 6,
    ensures
        s@ == male_variant_ids()[i as int],
{
    if i == 0 {
        "02m"
    } else if i == 1 {
        "09m"
    } else if i == 2 {
        "13m"
    } else if i == 3 {
        "20m"
    } else if i == 4 {
        "22m"
    } else {
        "24m"
    }
}

fn female_variant(i: usize) -> (s: &'static str)
    requires
        i < 6,
    ensures
        s@ == female_variant_ids()[i as int],
{
    if i == 0 {
        "01f"
    } else if i == 1 {
        "03f"
    } else if i == 2 {
        "08f"
    } else if i == 3 {
        "10f"
    } else if i == 4 {
        "17f"
    } else {
        "24f"
    }
}

fn profession_to_filename(p: ProfessionEnum) -> (s: &'static str)
    ensures
        s@ == profession_file_name(p),
{
    match p {
        ProfessionEnum::Farmer => "Farmer",
        ProfessionEnum::Lumberjack => "Woodcutter",
        ProfessionEnum::Miner => "Miner_Coal",
        ProfessionEnum::Blacksmith => "Blacksmith",
        ProfessionEnum::Carpenter => "Luthier",
        ProfessionEnum::Mason => "Quarrymen",
        ProfessionEnum::Baker => "PastryCooker",
        ProfessionEnum::Brewer => "Cooker",
        ProfessionEnum::Cook => "Cooker",
        ProfessionEnum::Fisherman => "Fishermen",
        ProfessionEnum::Hunter => "Hunter",
        ProfessionEnum::Healer => "Doctor",
        ProfessionEnum::Merchant => "Jeweller",
        ProfessionEnum::Scholar => "Architect",
        ProfessionEnum::Warrior => "Knight",
        ProfessionEnum::Unknown => "Farmer",
    }
}

/// Builds the portrait paths of units.
pub struct PortraitGenerator;

impl PortraitGenerator {
    /// A random portrait variant for the gender: one of the women's variants
    /// for `"female"`, one of the men's for `"male"` and for anything else.
    pub fn generate_random_variant_id(gender: &str) -> (r: String)
        ensures
            variants_for(gender@).contains(r@),
    {
        proof {
            reveal_strlit("female");
        }
        let g = String::from_str(gender);
        let female = String::from_str("female");
        let idx = random_below(6);
        if g == female {
            let v = female_variant(idx);
            assert(female_variant_ids()[idx as int] == v@);
            String::from_str(v)
        } else {
            let v = male_variant(idx);
            assert(male_variant_ids()[idx as int] == v@);
            String::from_str(v)
        }
    }

    /// The relative path of the portrait of a unit of this gender, variant and
    /// profession, e.g. `sprites/portraits/male/02m/02m_Farmer.jpg`.
    pub fn generate_portrait_url(gender: &str, variant_id: &str, profession: ProfessionEnum) -> (r:
        String)
        ensures
            r@ == portrait_url_text(gender@, variant_id@, profession),
    {
        let mut s = String::from_str("sprites/portraits/");
        s.append(gender);
        s.append("/");
        s.append(variant_id);
        s.append("/");
        s.append(variant_id);
        s.append("_");
        s.append(profession_to_filename(profession));
        s.append(".jpg");
        s
    }

    /// A random variant for the gender and the path of its portrait in the profession.
    pub fn generate_variant_and_url(gender: &str, profession: ProfessionEnum) -> (r: (String, String))
        ensures
            variants_for(gender@).contains(r.0@),
            r.1@ == portrait_url_text(gender@, r.0@, profession),
    {
        let variant_id = Self::generate_random_variant_id(gender);
        let avatar_url = Self::generate_portrait_url(gender, variant_id.as_str(), profession);
        (variant_id, avatar_url)
    }
}

/// The avatar path a unit must be given: its portrait path for its gender,
/// variant and profession when its current path (if any) differs from it;
/// `None` when the current path is already right.
pub fn avatar_correction(
    gender: &str,
    variant_id: &str,
    profession: ProfessionEnum,
    current: &Option<String>,
) -> (r: Option<String>)
    ensures
        match current {
            Some(c) => c@ == portrait_url_text(gender@, variant_id@, profession) ==> r is None,
            None => true,
        },
        r matches Some(u) ==> u@ == portrait_url_text(gender@, variant_id@, profession),
        r is None ==> (current matches Some(c) && c@ == portrait_url_text(
            gender@,
            variant_id@,
            profession,
        )),
{
    let expected = PortraitGenerator::generate_portrait_url(gender, variant_id, profession);
    match current {
        Some(c) => {
            if *c == expected {
                None
            } else {
                Some(expected)
            }
        },
        None => Some(expected),
    }
}

} // verus!
