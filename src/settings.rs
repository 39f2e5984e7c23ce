use vstd::prelude::*;

use crate::format::ImageType;
use crate::paths::str_eq;

verus! {

/// The colour theme of the interface.
#[derive(Debug, Clone, Copy, PartialEq, Eq, Structural)]
pub enum ThemeKind {
    Light,
    Dark,
    System,
}

/// A named bundle of compression, resize and conversion options.
#[derive(Debug, Clone)]
pub struct ProfileData {
    pub name: String,
    pub id: u32,
    pub active: bool,
    pub should_resize: bool,
    pub should_convert: bool,
    pub should_overwrite: bool,
    pub enable_lossy: bool,
    pub keep_timestamps: bool,
    pub keep_metadata: bool,
    pub add_postfix: bool,
    pub should_background_fill: bool,
    pub background_fill: String,
    pub convert_extension: ImageType,
    pub postfix: String,
    pub resize_width: u32,
    pub resize_height: u32,
    pub jpeg_quality: u32,
    pub png_quality: u32,
    pub webp_quality: u32,
    pub gif_quality: u32,
    pub avif_quality: u32,
}

/// All stored settings: the theme, the worker count and the profiles.
#[derive(Debug, Clone)]
pub struct SettingsData {
    pub version: u32,
    pub theme: ThemeKind,
    pub threads: i32,
    pub profiles: Vec<ProfileData>,
}

/// The quality used for AVIF where a stored profile names none.
pub fn default_avif_quality() -> (r: u32)
    ensures
        r == 80,
{
    80
}

/// The background fill colour used where a stored profile names none.
pub fn default_color() -> (r: String)
    ensures
        r@ == "#000"@,
{
    String::from_str("#000")
}

/// The options of a freshly made default profile, but for name, id and
/// whether it is the active one.
pub open spec fn default_options(p: ProfileData) -> bool {
    &&& !p.should_resize
    &&& !p.should_background_fill
    &&& p.background_fill@ == "#000"@
    &&& !p.should_convert
    &&& !p.should_overwrite
    &&& p.enable_lossy
    &&& !p.keep_timestamps
    &&& p.keep_metadata
    &&& p.add_postfix
    &&& p.convert_extension == ImageType::WEBP
    &&& p.postfix@ == ".min"@
    &&& p.resize_width == 1000
    &&& p.resize_height == 1000
    &&& p.jpeg_quality == 80
    &&& p.png_quality == 80
    &&& p.webp_quality == 80
    &&& p.gif_quality == 80
    &&& p.avif_quality == 80
}

impl ProfileData {
    /// The default profile: id 0, named "Default", active.
    pub fn new() -> (r: Self)
        ensures
            default_options(r),
            r.name@ == "Default"@,
            r.id == 0,
            r.active,
    {
        ProfileData {
            name: String::from_str("Default"),
            id: 0,
            active: true,
            should_resize: false,
            should_background_fill: false,
            background_fill: default_color(),
            should_convert: false,
            should_overwrite: false,
            enable_lossy: true,
            keep_timestamps: false,
            keep_metadata: true,
            add_postfix: true,
            convert_extension: ImageType::WEBP,
            postfix: String::from_str(".min"),
            resize_width: 1000,
            resize_height: 1000,
            jpeg_quality: 80,
            png_quality: 80,
            webp_quality: 80,
            gif_quality: 80,
            avif_quality: default_avif_quality(),
        }
    }

    /// A new inactive profile with default options, the given id and name.
    pub fn new_with_params(id: u32, name: String) -> (r: Self)
        ensures
            default_options(r),
            r.name@ == name@,
            r.id == id,
            !r.active,
    {
        let mut this = Self::new();
        this.id = id;
        this.name = name;
        this.active = false;
        this
    }
}

impl SettingsData {
    /// Version 1 settings that follow the system theme, with no worker
    /// limit and the default profile alone.
    pub fn new() -> (r: Self)
        ensures
            r.version == 1,
            r.theme == ThemeKind::System,
            r.threads == 0,
            r.profiles@.len() == 1,
            default_options(r.profiles@[0]),
            r.profiles@[0].name@ == "Default"@,
            r.profiles@[0].id == 0,
            r.profiles@[0].active,
    {
        let mut profiles: Vec<ProfileData> = Vec::new();
        profiles.push(ProfileData::new());
        SettingsData { version: 1, theme: ThemeKind::System, threads: 0, profiles }
    }
}

/// Whether `i` is the first index of a profile with the given id.
pub open spec fn first_with_id(s: Seq<ProfileData>, id: u32, i: int) -> bool {
    0 <= i < s.len() && s[i].id == id && forall|j: int| 0 <= j < i ==> s[j].id != id
}

/// Whether `i` is the first index of a profile with the given name.
pub open spec fn first_with_name(s: Seq<ProfileData>, name: Seq<char>, i: int) -> bool {
    0 <= i < s.len() && s[i].name@ == name && forall|j: int| 0 <= j < i ==> s[j].name@ != name
}

/// Whether no profile has the given id.
pub open spec fn no_id(s: Seq<ProfileData>, id: u32) -> bool {
    forall|j: int| 0 <= j < s.len() ==> s[j].id != id
}

/// The first index of a profile with the given id.
fn position_of_id(profiles: &Vec<ProfileData>, id: u32) -> (r: Option<usize>)
    ensures
        r is None <==> no_id(profiles@, id),
        r matches Some(i) ==> first_with_id(profiles@, id, i as int),
{
    let mut i: usize = 0;
    while i < profiles.len()
        invariant
            i <= profiles@.len(),
            forall|j: int| 0 <= j < i ==> profiles@[j].id != id,
        decreases profiles@.len() - i,
    {
        if profiles[i].id == id {
            return Some(i);
        }
        i = i + 1;
    }
    None
}

/// The first index of a profile with the given name.
fn position_of_name(profiles: &Vec<ProfileData>, name: &str) -> (r: Option<usize>)
    ensures
        r is None <==> forall|j: int| 0 <= j < profiles@.len() ==> profiles@[j].name@ != name@,
        r matches Some(i) ==> first_with_name(profiles@, name@, i as int),
{
    let mut i: usize = 0;
    while i < profiles.len()
        invariant
            i <= profiles@.len(),
            forall|j: int| 0 <= j < i ==> profiles@[j].name@ != name@,
        decreases profiles@.len() - i,
    {
        if str_eq(profiles[i].name.as_str(), name) {
            return Some(i);
        }
        i = i + 1;
    }
    None
}

/// Whether a profile was reset to the defaults, keeping its id and name.
pub open spec fn reset_from(new: ProfileData, old: ProfileData) -> bool {
    default_options(new) && new.id == old.id && new.name@ == old.name@ && !new.active
}

/// Resets the first profile with the given id to the default options,
/// keeping its id and name; fails where no profile has that id.
pub fn reset_profile(settings: &mut SettingsData, profile_id: u32) -> (r: Result<(), String>)
    ensures
        r is Err <==> no_id(old(settings).profiles@, profile_id),
        r is Err ==> final(settings).profiles@ == old(settings).profiles@,
        r is Ok ==> exists|i: int|
            first_with_id(old(settings).profiles@, profile_id, i) && final(settings).profiles@.len()
                == old(settings).profiles@.len() && reset_from(
                #[trigger] final(settings).profiles@[i],
                old(settings).profiles@[i],
            ) && forall|j: int|
                0 <= j < old(settings).profiles@.len() && j != i ==> final(settings).profiles@[j]
                    == old(settings).profiles@[j],
        final(settings).version == old(settings).version,
        final(settings).theme == old(settings).theme,
        final(settings).threads == old(settings).threads,
{
    let idx = match position_of_id(&settings.profiles, profile_id) {
        Some(i) => i,
        None => return Err(String::from_str("Profile not found")),
    };
    let name = settings.profiles[idx].name.clone();
    let fresh = ProfileData::new_with_params(profile_id, name);
    settings.profiles.set(idx, fresh);
    assert(reset_from(settings.profiles@[idx as int], old(settings).profiles@[idx as int]));
    Ok(())
}

/// Removes the first profile with the given id; the default profile, id 0,
/// cannot be removed.
pub fn delete_profile(settings: &mut SettingsData, profile_id: u32) -> (r: Result<(), String>)
    ensures
        r is Err <==> profile_id == 0,
        r is Err || no_id(old(settings).profiles@, profile_id) ==> final(settings).profiles@
            == old(settings).profiles@,
        r is Ok ==> forall|i: int|
            first_with_id(old(settings).profiles@, profile_id, i) ==> final(settings).profiles@
                == old(settings).profiles@.remove(i),
        final(settings).version == old(settings).version,
        final(settings).theme == old(settings).theme,
        final(settings).threads == old(settings).threads,
{
    if profile_id == 0 {
        return Err(String::from_str("Cannot delete default profile"));
    }
    match position_of_id(&settings.profiles, profile_id) {
        Some(i) => {
            settings.profiles.remove(i);
            proof {
                assert forall|k: int| first_with_id(old(settings).profiles@, profile_id, k) implies k
                    == i by {
                    if k < i {
                        assert(old(settings).profiles@[k].id != profile_id);
                    } else if k > i {
                        assert(old(settings).profiles@[i as int].id != profile_id);
                    }
                }
            }
        },
        None => {},
    }
    Ok(())
}

/// The decimal digits of a number.
pub open spec fn decimal_of(n: nat) -> Seq<char>
    decreases n,
{
    if n < 10 {
        seq![digit_char(n)]
    } else {
        decimal_of(n / 10) + seq![digit_char(n % 10)]
    }
}

pub open spec fn digit_char(d: nat) -> char {
    if d == 0 { '0' }
    else if d == 1 { '1' }
    else if d == 2 { '2' }
    else if d == 3 { '3' }
    else if d == 4 { '4' }
    else if d == 5 { '5' }
    else if d == 6 { '6' }
    else if d == 7 { '7' }
    else if d == 8 { '8' }
    else { '9' }
}

fn digit_str(d: u64) -> (r: &'static str)
    requires
        d < 10,
    ensures
        r@ == seq![digit_char(d as nat)],
{
    proof {
        reveal_strlit("0");
        reveal_strlit("1");
        reveal_strlit("2");
        reveal_strlit("3");
        reveal_strlit("4");
        reveal_strlit("5");
        reveal_strlit("6");
        reveal_strlit("7");
        reveal_strlit("8");
        reveal_strlit("9");
    }
    let r = if d == 0 { "0" }
    else if d == 1 { "1" }
    else if d == 2 { "2" }
    else if d == 3 { "3" }
    else if d == 4 { "4" }
    else if d == 5 { "5" }
    else if d == 6 { "6" }
    else if d == 7 { "7" }
    else if d == 8 { "8" }
    else { "9" };
    assert(r@ =~= seq![digit_char(d as nat)]);
    r
}

/// A number written in decimal.
pub fn decimal(n: u64) -> (r: String)
    ensures
        r@ == decimal_of(n as nat),
    decreases n,
{
    if n < 10 {
        String::from_str(digit_str(n))
    } else {
        let mut r = decimal(n / 10);
        r.append(digit_str(n % 10));
        r
    }
}

/// The name a new profile gets: the requested one, or where a profile already
/// has it, the requested one followed by " (k)", k being one more than the
/// index of the first profile with that name.
pub open spec fn new_profile_name(s: Seq<ProfileData>, name: Seq<char>) -> Seq<char> {
    if exists|i: int| first_with_name(s, name, i) {
        let i = choose|i: int| first_with_name(s, name, i);
        name + seq![' ', '('] + decimal_of((i + 1) as nat) + seq![')']
    } else {
        name
    }
}

/// The highest profile id.
pub open spec fn is_max_id(s: Seq<ProfileData>, m: u32) -> bool {
    (exists|i: int| 0 <= i < s.len() && s[i].id == m) && forall|i: int|
        0 <= i < s.len() ==> s[i].id <= m
}

proof fn lemma_first_with_name_unique(s: Seq<ProfileData>, name: Seq<char>, i: int, k: int)
    requires
        first_with_name(s, name, i),
        first_with_name(s, name, k),
    ensures
        i == k,
{
    if i < k {
        assert(s[i].name@ != name);
    } else if k < i {
        assert(s[k].name@ != name);
    }
}

/// Appends an inactive profile with default options, the next id after the
/// highest one, and the requested name made distinct where it is taken.
pub fn add_profile(settings: &mut SettingsData, name: String) -> (r: Result<(), String>)
    requires
        old(settings).profiles@.len() > 0,
        old(settings).profiles@.len() < usize::MAX,
    ensures
        r is Err <==> is_max_id(old(settings).profiles@, u32::MAX),
        r is Err ==> final(settings).profiles@ == old(settings).profiles@,
        r is Ok ==> {
            &&& final(settings).profiles@.len() == old(settings).profiles@.len() + 1
            &&& final(settings).profiles@.subrange(0, old(settings).profiles@.len() as int)
                == old(settings).profiles@
            &&& default_options(final(settings).profiles@.last())
            &&& !final(settings).profiles@.last().active
            &&& is_max_id(old(settings).profiles@, (final(settings).profiles@.last().id - 1) as u32)
            &&& final(settings).profiles@.last().name@ == new_profile_name(
                old(settings).profiles@,
                name@,
            )
        },
        final(settings).version == old(settings).version,
        final(settings).theme == old(settings).theme,
        final(settings).threads == old(settings).threads,
{
    let mut highest: u32 = settings.profiles[0].id;
    let mut k: usize = 1;
    while k < settings.profiles.len()
        invariant
            1 <= k <= settings.profiles@.len(),
            exists|i: int| 0 <= i < k && settings.profiles@[i].id == highest,
            forall|i: int| 0 <= i < k ==> settings.profiles@[i].id <= highest,
        decreases settings.profiles@.len() - k,
    {
        if settings.profiles[k].id > highest {
            highest = settings.profiles[k].id;
        }
        k = k + 1;
    }
    assert(is_max_id(settings.profiles@, highest));
    if highest == u32::MAX {
        return Err(String::from_str("No profile id is left"));
    }
    proof {
        if is_max_id(settings.profiles@, u32::MAX) {
            let i = choose|i: int| 0 <= i < settings.profiles@.len() && settings.profiles@[i].id == u32::MAX;
            assert(settings.profiles@[i].id <= highest);
        }
    }
    let final_name = match position_of_name(&settings.profiles, name.as_str()) {
        Some(i) => {
            let mut n = name;
            proof {
                reveal_strlit(" (");
                reveal_strlit(")");
                assert forall|k: int| first_with_name(settings.profiles@, n@, k) implies k == i by {
                    lemma_first_with_name_unique(settings.profiles@, n@, i as int, k);
                }
            }
            let ghost original = n@;
            n.append(" (");
            let count = decimal((i as u64) + 1);
            n.append(count.as_str());
            n.append(")");
            proof {
                let c = choose|c: int| first_with_name(settings.profiles@, original, c);
                assert(c == i);
                assert(n@ =~= original + seq![' ', '('] + decimal_of((i + 1) as nat) + seq![')']);
            }
            n
        },
        None => name,
    };
    let fresh = ProfileData::new_with_params(highest + 1, final_name);
    let ghost before = settings.profiles@;
    settings.profiles.push(fresh);
    assert(settings.profiles@.subrange(0, before.len() as int) =~= before);
    Ok(())
}

} // verus!
