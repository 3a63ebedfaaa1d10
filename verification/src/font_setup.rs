//! Which fonts serve which font families of the todo window: the font names to
//! load, and for each family the fonts it uses, in order of preference.
use vstd::prelude::*;

use crate::text::texts;

verus! {

broadcast use vstd::seq_lib::group_seq_properties;

/// A font family of the window, as egui tells them apart.
#[derive(Debug)]
pub enum FontFamilyId {
    Proportional,
    Monospace,
    /// A family known by its name.
    Name(String),
}

/// What tells two families apart: the kind, and for a named family its name.
pub open spec fn family_key(f: FontFamilyId) -> (int, Seq<char>) {
    match f {
        FontFamilyId::Proportional => (0, Seq::empty()),
        FontFamilyId::Monospace => (1, Seq::empty()),
        FontFamilyId::Name(name) => (2, name@),
    }
}

impl FontFamilyId {
    /// A copy of the family.
    pub fn duplicate(&self) -> (r: FontFamilyId)
        ensures
            r == *self,
    {
        match self {
            FontFamilyId::Proportional => FontFamilyId::Proportional,
            FontFamilyId::Monospace => FontFamilyId::Monospace,
            FontFamilyId::Name(name) => FontFamilyId::Name(name.clone()),
        }
    }

    /// Whether the two are the same family.
    pub fn same_family(&self, other: &FontFamilyId) -> (r: bool)
        ensures
            r == (family_key(*self) == family_key(*other)),
    {
        match (self, other) {
            (FontFamilyId::Proportional, FontFamilyId::Proportional) => true,
            (FontFamilyId::Monospace, FontFamilyId::Monospace) => true,
            (FontFamilyId::Name(a), FontFamilyId::Name(b)) => {
                let same = *a == *b;
                assert(same ==> family_key(*self) == family_key(*other));
                assert(family_key(*self) == family_key(*other) ==> a@ == b@);
                same
            },
            _ => false,
        }
    }
}

/// One family and the names of the fonts it uses, in order of preference.
#[derive(Debug)]
pub struct FamilyFonts {
    pub family: FontFamilyId,
    pub fonts: Vec<String>,
}

/// The family an entry is for.
pub open spec fn entry_key(e: FamilyFonts) -> (int, Seq<char>) {
    family_key(e.family)
}

/// No family has two entries.
pub open spec fn keys_distinct(entries: Seq<FamilyFonts>) -> bool {
    forall|i: int, j: int|
        0 <= i < j < entries.len() ==> entry_key(#[trigger] entries[i]) != entry_key(
            #[trigger] entries[j],
        )
}

/// The families of the entries and the font names each uses.
pub open spec fn families_map(entries: Seq<FamilyFonts>) -> Map<(int, Seq<char>), Seq<Seq<char>>>
    decreases entries.len(),
{
    if entries.len() == 0 {
        Map::empty()
    } else {
        families_map(entries.drop_last()).insert(
            entry_key(entries.last()),
            texts(entries.last().fonts@),
        )
    }
}

/// `name` appended to the fonts of the family `key`, which starts out with no
/// fonts when it had none.
pub open spec fn with_font_in_family(
    m: Map<(int, Seq<char>), Seq<Seq<char>>>,
    name: Seq<char>,
    key: (int, Seq<char>),
) -> Map<(int, Seq<char>), Seq<Seq<char>>> {
    m.insert(
        key,
        if m.contains_key(key) {
            m[key]
        } else {
            Seq::empty()
        }.push(name),
    )
}

/// `name` appended to the fonts of each of `keys` in turn (twice to a family
/// listed twice).
pub open spec fn with_font_in_families(
    m: Map<(int, Seq<char>), Seq<Seq<char>>>,
    name: Seq<char>,
    keys: Seq<(int, Seq<char>)>,
) -> Map<(int, Seq<char>), Seq<Seq<char>>>
    decreases keys.len(),
{
    if keys.len() == 0 {
        m
    } else {
        with_font_in_family(with_font_in_families(m, name, keys.drop_last()), name, keys.last())
    }
}

/// The keys of a list of families.
pub open spec fn family_keys(families: Seq<FontFamilyId>) -> Seq<(int, Seq<char>)> {
    families.map_values(|f: FontFamilyId| family_key(f))
}

/// A font to load and the families it serves.
#[derive(Debug)]
pub struct FontChoice {
    pub name: String,
    pub families: Vec<FontFamilyId>,
}

/// The families after adding each choice in turn.
pub open spec fn with_choices(
    m: Map<(int, Seq<char>), Seq<Seq<char>>>,
    choices: Seq<FontChoice>,
) -> Map<(int, Seq<char>), Seq<Seq<char>>>
    decreases choices.len(),
{
    if choices.len() == 0 {
        m
    } else {
        let c = choices.last();
        with_font_in_families(with_choices(m, choices.drop_last()), c.name@, family_keys(c.families@))
    }
}

/// The font names after adding each choice in turn.
pub open spec fn names_with_choices(names: Set<Seq<char>>, choices: Seq<FontChoice>) -> Set<
    Seq<char>,
>
    decreases choices.len(),
{
    if choices.len() == 0 {
        names
    } else {
        names_with_choices(names, choices.drop_last()).insert(choices.last().name@)
    }
}

/// Fonts are looked up among `font_names`; the family of an entry of
/// `families` uses the fonts listed with it, the first one first.
#[derive(Debug)]
pub struct FontSetup {
    pub font_names: Vec<String>,
    pub families: Vec<FamilyFonts>,
}

impl FontSetup {
    /// Each family has one entry.
    pub open spec fn well_formed(self) -> bool {
        keys_distinct(self.families@)
    }

    /// Each family and the fonts it uses.
    pub open spec fn family_map(self) -> Map<(int, Seq<char>), Seq<Seq<char>>> {
        families_map(self.families@)
    }

    /// The names of the fonts to load.
    pub open spec fn name_set(self) -> Set<Seq<char>> {
        texts(self.font_names@).to_set()
    }

    /// No fonts and no families.
    pub fn new() -> (r: Self)
        ensures
            r.well_formed(),
            r.family_map() == Map::<(int, Seq<char>), Seq<Seq<char>>>::empty(),
            r.name_set() == Set::<Seq<char>>::empty(),
    {
        let r = FontSetup { font_names: Vec::new(), families: Vec::new() };
        assert(r.name_set() =~= Set::<Seq<char>>::empty());
        r
    }

    /// Adds the font `name` and appends it to the fonts of each of `families`
    /// in turn, giving a family it has none for an entry of its own.
    pub fn add_font(&mut self, name: String, families: &Vec<FontFamilyId>)
        requires
            old(self).well_formed(),
        ensures
            final(self).well_formed(),
            final(self).family_map() == with_font_in_families(
                old(self).family_map(),
                name@,
                family_keys(families@),
            ),
            final(self).name_set() == old(self).name_set().insert(name@),
    {
        self.add_name(&name);
        let ghost start = self.family_map();
        let ghost keys = family_keys(families@);
        for k in 0..families.len()
            invariant
                self.well_formed(),
                keys == family_keys(families@),
                keys.len() == families@.len(),
                self.family_map() == with_font_in_families(start, name@, keys.take(k as int)),
                self.name_set() == old(self).name_set().insert(name@),
        {
            assert(keys.take(k + 1).drop_last() =~= keys.take(k as int));
            assert(keys[k as int] == family_key(families@[k as int]));
            self.add_to_family(&name, &families[k]);
        }
        assert(keys.take(families@.len() as int) =~= keys);
    }

    /// Adds each chosen font in turn (see `add_font`).
    pub fn add_fonts(&mut self, choices: &Vec<FontChoice>)
        requires
            old(self).well_formed(),
        ensures
            final(self).well_formed(),
            final(self).family_map() == with_choices(old(self).family_map(), choices@),
            final(self).name_set() == names_with_choices(old(self).name_set(), choices@),
    {
        let ghost start = self.family_map();
        let ghost start_names = self.name_set();
        for k in 0..choices.len()
            invariant
                self.well_formed(),
                self.family_map() == with_choices(start, choices@.take(k as int)),
                self.name_set() == names_with_choices(start_names, choices@.take(k as int)),
        {
            assert(choices@.take(k + 1).drop_last() =~= choices@.take(k as int));
            let choice = &choices[k];
            self.add_font(choice.name.clone(), &choice.families);
        }
        assert(choices@.take(choices@.len() as int) =~= choices@);
    }

    /// Adds `name` to the font names unless it is there.
    fn add_name(&mut self, name: &String)
        ensures
            final(self).name_set() == old(self).name_set().insert(name@),
            final(self).families == old(self).families,
    {
        let ghost before = texts(self.font_names@);
        let mut present = false;
        for i in 0..self.font_names.len()
            invariant
                before == texts(self.font_names@),
                before.len() == self.font_names@.len(),
                present <==> exists|j: int| 0 <= j < i && #[trigger] before[j] == name@,
        {
            assert(before[i as int] == self.font_names@[i as int]@);
            if self.font_names[i] == *name {
                present = true;
            }
        }
        if present {
            assert(self.name_set() =~= old(self).name_set().insert(name@));
        } else {
            self.font_names.push(name.clone());
            let ghost after = texts(self.font_names@);
            assert(after =~= before.push(name@));
            assert(self.name_set() =~= old(self).name_set().insert(name@)) by {
                assert forall|x: Seq<char>| after.contains(x) <==> before.contains(x) || x == name@
                    by {
                    if after.contains(x) {
                        let j = choose|j: int| 0 <= j < after.len() && after[j] == x;
                        if j < before.len() {
                            assert(before[j] == x);
                        }
                    }
                    if before.contains(x) {
                        let j = choose|j: int| 0 <= j < before.len() && before[j] == x;
                        assert(after[j] == x);
                    }
                    if x == name@ {
                        assert(after[before.len() as int] == x);
                    }
                }
            }
        }
    }

    /// Appends `name` to the fonts of `family`.
    fn add_to_family(&mut self, name: &String, family: &FontFamilyId)
        requires
            old(self).well_formed(),
        ensures
            final(self).well_formed(),
            final(self).family_map() == with_font_in_family(
                old(self).family_map(),
                name@,
                family_key(*family),
            ),
            final(self).font_names == old(self).font_names,
    {
        let key = Ghost(family_key(*family));
        match find_family(&self.families, family) {
            Some(j) => {
                proof {
                    lemma_families_map_at(self.families@, j as int);
                }
                let mut fonts = self.families[j].fonts.clone();
                assert(fonts@ =~= self.families@[j as int].fonts@);
                fonts.push(name.clone());
                let entry = FamilyFonts { family: self.families[j].family.duplicate(), fonts };
                proof {
                    assert(texts(entry.fonts@) =~= texts(self.families@[j as int].fonts@).push(
                        name@,
                    ));
                    lemma_families_map_update(self.families@, j as int, entry);
                    assert forall|a: int, b: int|
                        0 <= a < b < self.families@.len() implies entry_key(
                        #[trigger] self.families@.update(j as int, entry)[a],
                    ) != entry_key(#[trigger] self.families@.update(j as int, entry)[b]) by {
                        assert(entry_key(self.families@[a]) != entry_key(self.families@[b]));
                    }
                }
                self.families.set(j, entry);
            },
            None => {
                proof {
                    lemma_families_map_absent(self.families@, key@);
                }
                let mut fonts: Vec<String> = Vec::new();
                fonts.push(name.clone());
                let entry = FamilyFonts { family: family.duplicate(), fonts };
                let ghost before = self.families@;
                self.families.push(entry);
                proof {
                    assert(self.families@.drop_last() =~= before);
                    assert(texts(entry.fonts@) =~= seq![name@]);
                    assert(Seq::<Seq<char>>::empty().push(name@) =~= seq![name@]);
                    assert forall|a: int, b: int|
                        0 <= a < b < self.families@.len() implies entry_key(
                        #[trigger] self.families@[a],
                    ) != entry_key(#[trigger] self.families@[b]) by {
                        if b < before.len() {
                            assert(entry_key(before[a]) != entry_key(before[b]));
                        } else {
                            assert(self.families@[a] == before[a]);
                        }
                    }
                }
            },
        }
    }
}

/// The entry for `family`, if there is one.
fn find_family(entries: &Vec<FamilyFonts>, family: &FontFamilyId) -> (r: Option<usize>)
    ensures
        match r {
            Some(j) => j < entries@.len() && entry_key(entries@[j as int]) == family_key(*family),
            None => forall|i: int|
                0 <= i < entries@.len() ==> entry_key(#[trigger] entries@[i]) != family_key(
                    *family,
                ),
        },
{
    for j in 0..entries.len()
        invariant
            forall|i: int| 0 <= i < j ==> entry_key(#[trigger] entries@[i]) != family_key(*family),
    {
        if entries[j].family.same_family(family) {
            return Some(j);
        }
    }
    None
}

/// A family with no entry is not in the map.
proof fn lemma_families_map_absent(s: Seq<FamilyFonts>, k: (int, Seq<char>))
    requires
        forall|i: int| 0 <= i < s.len() ==> entry_key(#[trigger] s[i]) != k,
    ensures
        !families_map(s).contains_key(k),
    decreases s.len(),
{
    if s.len() > 0 {
        assert(entry_key(s[s.len() - 1]) != k);
        lemma_families_map_absent(s.drop_last(), k);
    }
}

/// The map gives each family the fonts of its entry.
proof fn lemma_families_map_at(s: Seq<FamilyFonts>, i: int)
    requires
        keys_distinct(s),
        0 <= i < s.len(),
    ensures
        families_map(s).contains_key(entry_key(s[i])),
        families_map(s)[entry_key(s[i])] == texts(s[i].fonts@),
    decreases s.len(),
{
    if i < s.len() - 1 {
        assert(entry_key(s[i]) != entry_key(s[s.len() - 1]));
        assert(s.drop_last()[i] == s[i]);
        lemma_families_map_at(s.drop_last(), i);
    }
}

/// Replacing an entry by one for the same family replaces that family's fonts.
proof fn lemma_families_map_update(s: Seq<FamilyFonts>, j: int, e: FamilyFonts)
    requires
        keys_distinct(s),
        0 <= j < s.len(),
        entry_key(e) == entry_key(s[j]),
    ensures
        families_map(s.update(j, e)) == families_map(s).insert(entry_key(e), texts(e.fonts@)),
    decreases s.len(),
{
    let u = s.update(j, e);
    let last = s.len() - 1;
    if j == last {
        assert(u.drop_last() =~= s.drop_last());
        assert(families_map(u) =~= families_map(s).insert(entry_key(e), texts(e.fonts@)));
    } else {
        assert(u.drop_last() =~= s.drop_last().update(j, e));
        assert(s.drop_last()[j] == s[j]);
        lemma_families_map_update(s.drop_last(), j, e);
        assert(entry_key(s[j]) != entry_key(s[last]));
        assert(u.last() == s.last());
        assert(families_map(u) =~= families_map(s).insert(entry_key(e), texts(e.fonts@)));
    }
}

} // verus!
