//! Random names for new units, drawn from lists read from text files
//! (one `Name;Country` entry per line).
use vstd::prelude::*;
use vstd::string::*;
use vstd::std_specs::iter::IteratorSpec;
use crate::text::push_char;
use crate::random::{coin_flip, random_below};

verus! {

/// Whether `char::is_whitespace` holds of `c` (the Unicode `White_Space` characters).
pub open spec fn is_space(c: char) -> bool {
    let u = c as u32;
    (0x09 <= u <= 0x0D) || u == 0x20 || u == 0x85 || u == 0xA0 || u == 0x1680 || (0x2000 <= u
        <= 0x200A) || u == 0x2028 || u == 0x2029 || u == 0x202F || u == 0x205F || u == 0x3000
}

/// `s` without its leading whitespace.
pub open spec fn trim_start(s: Seq<char>) -> Seq<char>
    decreases s.len(),
{
    if s.len() > 0 && is_space(s[0]) {
        trim_start(s.drop_first())
    } else {
        s
    }
}

/// `s` without its trailing whitespace.
pub open spec fn trim_end(s: Seq<char>) -> Seq<char>
    decreases s.len(),
{
    if s.len() > 0 && is_space(s.last()) {
        trim_end(s.drop_last())
    } else {
        s
    }
}

/// `s` without whitespace at either end, as `str::trim` gives it.
pub open spec fn trim(s: Seq<char>) -> Seq<char> {
    trim_end(trim_start(s))
}

/// The text before the first `;` (all of `s` when there is none), as the first
/// item of `str::split(';')`.
pub open spec fn before_semicolon(s: Seq<char>) -> Seq<char>
    decreases s.len(),
{
    if s.len() == 0 || s[0] == ';' {
        Seq::empty()
    } else {
        seq![s[0]] + before_semicolon(s.drop_first())
    }
}

/// The pieces of `s` between newlines, as `str::split('\n')` gives them.
pub open spec fn split_newlines(s: Seq<char>) -> Seq<Seq<char>>
    decreases s.len(),
{
    if s.len() == 0 {
        seq![Seq::empty()]
    } else {
        let p = split_newlines(s.drop_last());
        if s.last() == '\n' {
            p.push(Seq::empty())
        } else {
            p.update(p.len() - 1, p.last().push(s.last()))
        }
    }
}

/// The name on a line: the trimmed text before its first `;`.
pub open spec fn line_name(line: Seq<char>) -> Seq<char> {
    trim(before_semicolon(line))
}

/// The names of the lines, in order, leaving out lines whose name is empty.
pub open spec fn names_of_lines(lines: Seq<Seq<char>>) -> Seq<Seq<char>>
    decreases lines.len(),
{
    if lines.len() == 0 {
        Seq::empty()
    } else {
        let rest = names_of_lines(lines.drop_last());
        if line_name(lines.last()).len() > 0 {
            rest.push(line_name(lines.last()))
        } else {
            rest
        }
    }
}

/// The names listed in a file's text, one per line. (A line's trailing `\\r`
/// is whitespace and a final empty line holds no name, so splitting at every
/// newline finds the same names as `str::lines`.)
pub open spec fn names_in_text(text: Seq<char>) -> Seq<Seq<char>> {
    names_of_lines(split_newlines(text))
}

fn is_space_char(c: char) -> (b: bool)
    ensures
        b == is_space(c),
{
    let u = c as u32;
    (0x09 <= u && u <= 0x0D) || u == 0x20 || u == 0x85 || u == 0xA0 || u == 0x1680 || (0x2000
        <= u && u <= 0x200A) || u == 0x2028 || u == 0x2029 || u == 0x202F || u == 0x205F || u
        == 0x3000
}

proof fn lemma_before_semicolon_step(s: Seq<char>, i: int)
    requires
        0 <= i < s.len(),
        s[i] != ';',
    ensures
        before_semicolon(s.subrange(i, s.len() as int)) == seq![s[i]] + before_semicolon(
            s.subrange(i + 1, s.len() as int),
        ),
{
    let t = s.subrange(i, s.len() as int);
    assert(t.drop_first() =~= s.subrange(i + 1, s.len() as int));
}

proof fn lemma_trim_start_step(s: Seq<char>, i: int, k: int)
    requires
        0 <= i < k <= s.len(),
        is_space(s[i]),
    ensures
        trim_start(s.subrange(i, k)) == trim_start(s.subrange(i + 1, k)),
{
    assert(s.subrange(i, k).drop_first() =~= s.subrange(i + 1, k));
}

proof fn lemma_trim_end_step(s: Seq<char>, a: int, j: int)
    requires
        0 <= a < j <= s.len(),
        is_space(s[j - 1]),
    ensures
        trim_end(s.subrange(a, j)) == trim_end(s.subrange(a, j - 1)),
{
    assert(s.subrange(a, j).drop_last() =~= s.subrange(a, j - 1));
}

proof fn lemma_split_nonempty(s: Seq<char>)
    ensures
        split_newlines(s).len() >= 1,
    decreases s.len(),
{
    if s.len() > 0 {
        lemma_split_nonempty(s.drop_last());
    }
}

/// The name on one line of a file.
fn name_on_line(line: &Vec<char>) -> (r: String)
    ensures
        r@ == line_name(line@),
{
    let n = line.len();
    let mut k: usize = 0;
    assert(line@.subrange(0, n as int) =~= line@);
    assert(line@.subrange(0, 0) + line@ =~= line@);
    while k < n && line[k] != ';'
        invariant
            k <= n == line@.len(),
            before_semicolon(line@) == line@.subrange(0, k as int) + before_semicolon(
                line@.subrange(k as int, n as int),
            ),
        decreases n - k,
    {
        proof {
            lemma_before_semicolon_step(line@, k as int);
            assert(line@.subrange(0, k + 1) =~= line@.subrange(0, k as int) + seq![line@[k as int]]);
        }
        k = k + 1;
    }
    proof {
        assert(before_semicolon(line@.subrange(k as int, n as int)) =~= Seq::<char>::empty());
        assert(before_semicolon(line@) =~= line@.subrange(0, k as int));
    }
    let mut start: usize = 0;
    while start < k && is_space_char(line[start])
        invariant
            start <= k <= n == line@.len(),
            trim_start(line@.subrange(0, k as int)) == trim_start(
                line@.subrange(start as int, k as int),
            ),
        decreases k - start,
    {
        proof {
            lemma_trim_start_step(line@, start as int, k as int);
        }
        start = start + 1;
    }
    let ghost core = line@.subrange(start as int, k as int);
    assert(trim_start(core) == core);
    let mut end: usize = k;
    while end > start && is_space_char(line[end - 1])
        invariant
            start <= end <= k <= n == line@.len(),
            trim_end(core) == trim_end(line@.subrange(start as int, end as int)),
            core == line@.subrange(start as int, k as int),
        decreases end - start,
    {
        proof {
            lemma_trim_end_step(line@, start as int, end as int);
        }
        end = end - 1;
    }
    assert(trim_end(line@.subrange(start as int, end as int)) == line@.subrange(
        start as int,
        end as int,
    ));
    let mut r = String::new();
    let mut i: usize = start;
    while i < end
        invariant
            start <= i <= end <= n == line@.len(),
            r@ == line@.subrange(start as int, i as int),
        decreases end - i,
    {
        push_char(&mut r, line[i]);
        assert(r@ =~= line@.subrange(start as int, i + 1));
        i = i + 1;
    }
    r
}

/// The names listed in the text of a names file, in order: on each line the
/// text before the first `;`, trimmed; lines with no name are left out.
pub fn names_from_text(text: &str) -> (names: Vec<String>)
    ensures
        names@.map_values(|s: String| s@) == names_in_text(text@),
{
    let mut names: Vec<String> = Vec::new();
    let mut cur: Vec<char> = Vec::new();
    let ghost mut done: Seq<char> = Seq::empty();
    assert(split_newlines(done) == seq![Seq::<char>::empty()]);
    assert(split_newlines(done).drop_last() =~= Seq::<Seq<char>>::empty());
    assert(cur@ =~= Seq::<char>::empty());
    assert(names@.map_values(|s: String| s@) =~= Seq::<Seq<char>>::empty());
    for c in it: text.chars()
        invariant
            it.seq() == text@,
            done == text@.subrange(0, it.index() as int),
            split_newlines(done).last() == cur@,
            names@.map_values(|s: String| s@) == names_of_lines(split_newlines(done).drop_last()),
    {
        let ghost before = done;
        proof {
            lemma_split_nonempty(before);
            done = done.push(c);
            assert(done =~= text@.subrange(0, it.index() + 1));
            assert(done.drop_last() =~= before);
        }
        if c == '\n' {
            let name = name_on_line(&cur);
            if !name.as_str().is_empty() {
                let ghost old_names = names@;
                names.push(name);
                assert(names@.map_values(|s: String| s@) =~= old_names.map_values(
                    |s: String| s@,
                ).push(name@));
            }
            proof {
                let p = split_newlines(before);
                assert(split_newlines(done) == p.push(Seq::<char>::empty()));
                assert(split_newlines(done).drop_last() =~= p);
                assert(p =~= p.drop_last().push(p.last()));
            }
            cur = Vec::new();
        } else {
            cur.push(c);
            proof {
                let p = split_newlines(before);
                assert(split_newlines(done).drop_last() =~= p.drop_last());
            }
        }
    }
    assert(done =~= text@);
    proof {
        lemma_split_nonempty(done);
    }
    let last = name_on_line(&cur);
    proof {
        let p = split_newlines(done);
        assert(p =~= p.drop_last().push(p.last()));
    }
    if !last.as_str().is_empty() {
        let ghost old_names = names@;
        names.push(last);
        assert(names@.map_values(|s: String| s@) =~= old_names.map_values(|s: String| s@).push(
            last@,
        ));
    }
    names
}

/// The debug text of the path of the male first names file.
pub const MALE_NAMES_PATH: &'static str = "\"assets/data/males.txt\"";

/// The debug text of the path of the female first names file.
pub const FEMALE_NAMES_PATH: &'static str = "\"assets/data/females.txt\"";

/// The debug text of the path of the last names file.
pub const LAST_NAMES_PATH: &'static str = "\"assets/data/lastNames.txt\"";

/// The error for a names file that lists no name (`path` as `{:?}` prints it).
pub open spec fn no_names_text(path: Seq<char>) -> Seq<char> {
    "No names found in file: "@ + path
}

/// The names listed in a file's text, or an error when it lists none.
pub fn load_names(text: &str, path: &str) -> (r: Result<Vec<String>, String>)
    ensures
        names_in_text(text@).len() == 0 ==> r is Err && r->Err_0@ == no_names_text(path@),
        names_in_text(text@).len() > 0 ==> r is Ok && r->Ok_0@.map_values(|s: String| s@)
            == names_in_text(text@),
{
    let names = names_from_text(text);
    if names.len() == 0 {
        let mut e = String::from_str("No names found in file: ");
        e.append(path);
        Err(e)
    } else {
        Ok(names)
    }
}

/// Draws random names from lists of male and female first names and of last names.
pub struct NameGenerator {
    male_first_names: Vec<String>,
    female_first_names: Vec<String>,
    last_names: Vec<String>,
}

/// Whether `name` is one of `list`.
pub open spec fn listed(list: Seq<String>, name: Seq<char>) -> bool {
    exists|i: int| 0 <= i < list.len() && (#[trigger] list[i])@ == name
}

/// What a draw from `list` may give: one of its names, or `fallback` when the
/// list is empty.
pub open spec fn drawn_from(list: Seq<String>, fallback: Seq<char>, name: Seq<char>) -> bool {
    if list.len() == 0 {
        name == fallback
    } else {
        listed(list, name)
    }
}

impl NameGenerator {
    /// The male first names.
    pub closed spec fn males(&self) -> Seq<String> {
        self.male_first_names@
    }

    /// The female first names.
    pub closed spec fn females(&self) -> Seq<String> {
        self.female_first_names@
    }

    /// The last names.
    pub closed spec fn lasts(&self) -> Seq<String> {
        self.last_names@
    }

    /// Builds the generator from the texts of the three names files (male
    /// first names, female first names, last names); fails on the first file,
    /// in that order, that lists no name.
    pub fn load_from_files(male_text: &str, female_text: &str, last_text: &str) -> (r: Result<
        NameGenerator,
        String,
    >)
        ensures
            r matches Ok(g) ==> g.males().map_values(|s: String| s@) == names_in_text(male_text@)
                && g.females().map_values(|s: String| s@) == names_in_text(female_text@)
                && g.lasts().map_values(|s: String| s@) == names_in_text(last_text@),
            r is Ok <==> (names_in_text(male_text@).len() > 0 && names_in_text(female_text@).len()
                > 0 && names_in_text(last_text@).len() > 0),
            names_in_text(male_text@).len() == 0 ==> r is Err && r->Err_0@ == no_names_text(
                MALE_NAMES_PATH@,
            ),
            (names_in_text(male_text@).len() > 0 && names_in_text(female_text@).len() == 0) ==> r is Err
                && r->Err_0@ == no_names_text(FEMALE_NAMES_PATH@),
            (names_in_text(male_text@).len() > 0 && names_in_text(female_text@).len() > 0
                && names_in_text(last_text@).len() == 0) ==> r is Err && r->Err_0@
                == no_names_text(LAST_NAMES_PATH@),
    {
        let male_first_names = match load_names(male_text, MALE_NAMES_PATH) {
            Ok(v) => v,
            Err(e) => {
                return Err(e);
            },
        };
        let female_first_names = match load_names(female_text, FEMALE_NAMES_PATH) {
            Ok(v) => v,
            Err(e) => {
                return Err(e);
            },
        };
        let last_names = match load_names(last_text, LAST_NAMES_PATH) {
            Ok(v) => v,
            Err(e) => {
                return Err(e);
            },
        };
        Ok(NameGenerator { male_first_names, female_first_names, last_names })
    }

    fn draw(list: &Vec<String>, fallback: &str) -> (r: String)
        ensures
            drawn_from(list@, fallback@, r@),
    {
        if list.len() == 0 {
            String::from_str(fallback)
        } else {
            let idx = random_below(list.len());
            let r = list[idx].clone();
            assert(list@[idx as int]@ == r@);
            r
        }
    }

    /// A random male first name (`"John"` when there is none).
    pub fn generate_male_first_name(&self) -> (r: String)
        ensures
            drawn_from(self.males(), "John"@, r@),
    {
        Self::draw(&self.male_first_names, "John")
    }

    /// A random female first name (`"Jane"` when there is none).
    pub fn generate_female_first_name(&self) -> (r: String)
        ensures
            drawn_from(self.females(), "Jane"@, r@),
    {
        Self::draw(&self.female_first_names, "Jane")
    }

    /// A random last name (`"Smith"` when there is none).
    pub fn generate_last_name(&self) -> (r: String)
        ensures
            drawn_from(self.lasts(), "Smith"@, r@),
    {
        Self::draw(&self.last_names, "Smith")
    }

    /// A random first and last name. `Some(true)` draws a male first name,
    /// `Some(false)` a female one, `None` either, by a coin flip.
    pub fn generate_random_name(&self, gender: Option<bool>) -> (r: (String, String))
        ensures
            gender == Some(true) ==> drawn_from(self.males(), "John"@, r.0@),
            gender == Some(false) ==> drawn_from(self.females(), "Jane"@, r.0@),
            gender is None ==> drawn_from(self.males(), "John"@, r.0@) || drawn_from(
                self.females(),
                "Jane"@,
                r.0@,
            ),
            drawn_from(self.lasts(), "Smith"@, r.1@),
    {
        let male = match gender {
            Some(g) => g,
            None => coin_flip(),
        };
        let first = if male {
            self.generate_male_first_name()
        } else {
            self.generate_female_first_name()
        };
        let last = self.generate_last_name();
        (first, last)
    }
}

/// Every name read from a file is non-empty and has no whitespace at either end.
pub proof fn law_names_are_trimmed(text: Seq<char>, i: int)
    requires
        0 <= i < names_in_text(text).len(),
    ensures
        names_in_text(text)[i].len() > 0,
        !is_space(names_in_text(text)[i][0]),
        !is_space(names_in_text(text)[i].last()),
{
    lemma_names_trimmed(split_newlines(text), i);
}

proof fn lemma_trim_start_clean(s: Seq<char>)
    ensures
        trim_start(s).len() > 0 ==> !is_space(trim_start(s)[0]),
        trim_start(s).len() <= s.len(),
    decreases s.len(),
{
    if s.len() > 0 && is_space(s[0]) {
        lemma_trim_start_clean(s.drop_first());
    }
}

proof fn lemma_trim_end_clean(s: Seq<char>)
    ensures
        trim_end(s).len() > 0 ==> !is_space(trim_end(s).last()),
        trim_end(s).len() > 0 ==> trim_end(s)[0] == s[0],
        trim_end(s).len() <= s.len(),
    decreases s.len(),
{
    if s.len() > 0 && is_space(s.last()) {
        lemma_trim_end_clean(s.drop_last());
    }
}

proof fn lemma_names_trimmed(lines: Seq<Seq<char>>, i: int)
    requires
        0 <= i < names_of_lines(lines).len(),
    ensures
        names_of_lines(lines)[i].len() > 0,
        !is_space(names_of_lines(lines)[i][0]),
        !is_space(names_of_lines(lines)[i].last()),
    decreases lines.len(),
{
    let rest = names_of_lines(lines.drop_last());
    if i < rest.len() {
        lemma_names_trimmed(lines.drop_last(), i);
        assert(names_of_lines(lines)[i] == rest[i]);
    } else {
        let f = before_semicolon(lines.last());
        lemma_trim_start_clean(f);
        lemma_trim_end_clean(trim_start(f));
    }
}

} // verus!
