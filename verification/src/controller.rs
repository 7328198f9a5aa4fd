//! Controller: the coffee machine's operational state, the recipe selected
//! by the user, and the resource tallies (water, beans, residues).
//!
//! These are plain value computations around the persisted-state core; the
//! embedding program drives them and does any reporting to the user.

use vstd::prelude::*;
use vstd::string::StrSliceExecFns;
use vstd::string::StringExecFns;

verus! {

/// Machine-wide state, including values that survive shutdown via the
/// persisted record.
pub struct CoffeeMachine {
    pub global_coffees_made: u32,
    pub file_location: String,
    pub needs_water: bool,
    pub needs_beans: bool,
    pub needs_grounds_removal: bool,
    pub coffee_ground: bool,
}

/// The recipe currently selected by the user.
pub struct RecipeInterface {
    pub water_dosage_ml: u32,
    pub coffee_dosage_g: u32,
    pub double: bool,
}

/// Resource tallies: water and beans available, residues accumulated.
pub struct Resources {
    pub amount_of_water_ml: u32,
    pub amount_of_coffee_beans_g: u32,
    pub amount_of_residues_g: u32,
}

impl CoffeeMachine {
    /// Initializes the coffee machine, returning the machine itself plus a
    /// fresh recipe and fresh resource tallies.
    pub fn init() -> (r: (CoffeeMachine, RecipeInterface, Resources))
        ensures
            r.0.global_coffees_made == 0,
            r.0.file_location@ == "/tmp/coffee_machine/runtime.bin"@,
            !r.0.needs_water,
            !r.0.needs_beans,
            !r.0.needs_grounds_removal,
            !r.0.coffee_ground,
            r.1.water_dosage_ml == 0,
            r.1.coffee_dosage_g == 25,
            !r.1.double,
            r.2.amount_of_water_ml == 0,
            r.2.amount_of_coffee_beans_g == 0,
            r.2.amount_of_residues_g == 0,
    {
        (
            CoffeeMachine {
                global_coffees_made: 0,
                file_location: String::from_str("/tmp/coffee_machine/runtime.bin"),
                needs_beans: false,
                needs_water: false,
                needs_grounds_removal: false,
                coffee_ground: false,
            },
            RecipeInterface::init(),
            Resources::init(),
        )
    }

    /// Grinds a dose if the resources allow it: on success the lifetime
    /// coffee count goes up by one and the beans for the dose are consumed;
    /// otherwise nothing changes but the ground flag.
    pub fn grind(&mut self, resources: &mut Resources, recipe: &mut RecipeInterface)
        requires
            old(resources).has_enough(old(recipe)) ==> old(self).global_coffees_made < u32::MAX,
        ensures
            final(self).coffee_ground == old(resources).has_enough(old(recipe)),
            final(self).file_location == old(self).file_location,
            final(self).needs_water == old(self).needs_water,
            final(self).needs_beans == old(self).needs_beans,
            final(self).needs_grounds_removal == old(self).needs_grounds_removal,
            *final(recipe) == *old(recipe),
            final(resources).amount_of_water_ml == old(resources).amount_of_water_ml,
            final(resources).amount_of_residues_g == old(resources).amount_of_residues_g,
            ({
                if old(resources).has_enough(old(recipe)) {
                    &&& final(self).global_coffees_made == old(self).global_coffees_made + 1
                    &&& final(resources).amount_of_coffee_beans_g == old(resources).amount_of_coffee_beans_g - old(recipe).coffee_dosage_g
                } else {
                    &&& final(self).global_coffees_made == old(self).global_coffees_made
                    &&& final(resources).amount_of_coffee_beans_g == old(resources).amount_of_coffee_beans_g
                }
            }),
    {
        self.coffee_ground = resources.check_resources(recipe);
        if self.coffee_ground {
            self.global_coffees_made = self.global_coffees_made + 1;
            resources.amount_of_coffee_beans_g = resources.amount_of_coffee_beans_g
                - recipe.coffee_dosage_g;
        }
    }

    /// Brews the previously ground dose: consumes the water for it and
    /// clears the ground flag, so two brews cannot follow one grind.
    /// Without a ground dose nothing happens.
    pub fn brew(&mut self, resources: &mut Resources, recipe: &RecipeInterface)
        requires
            old(self).coffee_ground ==> old(resources).amount_of_water_ml
                >= recipe.water_dosage_ml,
        ensures
            !final(self).coffee_ground,
            final(self).global_coffees_made == old(self).global_coffees_made,
            final(self).file_location == old(self).file_location,
            final(self).needs_water == old(self).needs_water,
            final(self).needs_beans == old(self).needs_beans,
            final(self).needs_grounds_removal == old(self).needs_grounds_removal,
            final(resources).amount_of_coffee_beans_g == old(resources).amount_of_coffee_beans_g,
            final(resources).amount_of_residues_g == old(resources).amount_of_residues_g,
            ({
                if old(self).coffee_ground {
                    final(resources).amount_of_water_ml == old(resources).amount_of_water_ml
                        - recipe.water_dosage_ml
                } else {
                    final(resources).amount_of_water_ml == old(resources).amount_of_water_ml
                }
            }),
    {
        if self.coffee_ground {
            resources.amount_of_water_ml = resources.amount_of_water_ml - recipe.water_dosage_ml;
            self.coffee_ground = false;
        }
    }

    /// Whether the machine reports that it needs water.
    pub fn needs_water(&self) -> (r: bool)
        ensures
            r == self.needs_water,
    {
        self.needs_water
    }

    /// The storage location of the persisted record.
    pub fn file_location(&self) -> (r: &str)
        ensures
            r@ == self.file_location@,
    {
        self.file_location.as_str()
    }

    /// Whether the machine reports that it needs coffee beans.
    pub fn needs_beans(&self) -> (r: bool)
        ensures
            r == self.needs_beans,
    {
        self.needs_beans
    }

    /// Whether the machine reports that the grounds bin must be emptied.
    pub fn needs_grounds_removal(&self) -> (r: bool)
        ensures
            r == self.needs_grounds_removal,
    {
        self.needs_grounds_removal
    }
}

/// A character of Unicode's White_Space set, as trimming removes it from
/// dosage input: the ASCII whitespace characters, next line, no-break
/// space, ogham space mark, the en-quad..hair-space range, the line and
/// paragraph separators, narrow no-break space, medium mathematical space,
/// and ideographic space.
pub open spec fn is_space(c: char) -> bool {
    ||| 9 <= c as int <= 13
    ||| c as int == 32
    ||| c as int == 0x85
    ||| c as int == 0xA0
    ||| c as int == 0x1680
    ||| 0x2000 <= c as int <= 0x200A
    ||| c as int == 0x2028
    ||| c as int == 0x2029
    ||| c as int == 0x202F
    ||| c as int == 0x205F
    ||| c as int == 0x3000
}

/// An ASCII decimal digit.
pub open spec fn is_digit(c: char) -> bool {
    48 <= c as int <= 57
}

/// Every character of the text is a decimal digit.
pub open spec fn all_digits(s: Seq<char>) -> bool {
    forall|i: int| 0 <= i < s.len() ==> is_digit(s[i])
}

/// The value of a digit string, read left to right.
pub open spec fn digits_value(s: Seq<char>) -> int
    decreases s.len(),
{
    if s.len() == 0 {
        0
    } else {
        10 * digits_value(s.drop_last()) + (s.last() as int - 48)
    }
}

/// The text without its leading whitespace.
pub open spec fn trim_start(s: Seq<char>) -> Seq<char>
    decreases s.len(),
{
    if s.len() > 0 && is_space(s[0]) {
        trim_start(s.drop_first())
    } else {
        s
    }
}

/// The text without its trailing whitespace.
pub open spec fn trim_end(s: Seq<char>) -> Seq<char>
    decreases s.len(),
{
    if s.len() > 0 && is_space(s.last()) {
        trim_end(s.drop_last())
    } else {
        s
    }
}

/// The text without surrounding whitespace.
pub open spec fn trimmed(s: Seq<char>) -> Seq<char> {
    trim_end(trim_start(s))
}

/// The number part of the trimmed text: an optional leading plus sign is
/// stripped, as the unsigned integer parse accepts one.
pub open spec fn digits_of(t: Seq<char>) -> Seq<char> {
    if t.len() > 0 && t[0] == '+' {
        t.drop_first()
    } else {
        t
    }
}

/// The dosage level parsed from user input: after trimming surrounding
/// whitespace, the text must be an optional plus sign followed by one or
/// more decimal digits whose value fits a u32.
pub open spec fn parse_level(s: Seq<char>) -> Option<u32> {
    let d = digits_of(trimmed(s));
    if d.len() > 0 && all_digits(d) && digits_value(d) <= u32::MAX {
        Some(digits_value(d) as u32)
    } else {
        None
    }
}

/// The dosage stored for user input: a parsed value within the accepted
/// range 10..=20 is taken as it is; anything else (out of range, not a
/// number, too large) is coerced to half the upper limit.
pub open spec fn coerced_dosage(s: Seq<char>) -> u32 {
    match parse_level(s) {
        Option::Some(n) => if 10 <= n <= 20 {
            n
        } else {
            10
        },
        Option::None => 10,
    }
}

proof fn lemma_trim_start_is_skip(s: Seq<char>, k: int)
    requires
        0 <= k <= s.len(),
        forall|i: int| 0 <= i < k ==> is_space(s[i]),
        k == s.len() || !is_space(s[k]),
    ensures
        trim_start(s) == s.skip(k),
    decreases k,
{
    if k == 0 {
        assert(s.skip(0) =~= s);
    } else {
        assert(is_space(s[0]));
        lemma_trim_start_is_skip(s.drop_first(), k - 1);
        assert(s.drop_first().skip(k - 1) =~= s.skip(k));
    }
}

proof fn lemma_trim_end_is_take(s: Seq<char>, k: int)
    requires
        0 <= k <= s.len(),
        forall|i: int| k <= i < s.len() ==> is_space(s[i]),
        k == 0 || !is_space(s[k - 1]),
    ensures
        trim_end(s) == s.take(k),
    decreases s.len() - k,
{
    if k == s.len() {
        assert(s.take(k) =~= s);
    } else {
        assert(is_space(s.last()));
        lemma_trim_end_is_take(s.drop_last(), k);
        assert(s.drop_last().take(k) =~= s.take(k));
    }
}

/// Whether a character is Unicode whitespace.
fn is_space_char(c: char) -> (r: bool)
    ensures
        r == is_space(c),
{
    let n = c as u32;
    (9 <= n && n <= 13) || n == 32 || n == 0x85 || n == 0xA0 || n == 0x1680 || (0x2000 <= n && n
        <= 0x200A) || n == 0x2028 || n == 0x2029 || n == 0x202F || n == 0x205F || n == 0x3000
}

/// Whether a character is an ASCII decimal digit.
fn is_digit_char(c: char) -> (r: bool)
    ensures
        r == is_digit(c),
{
    let n = c as u32;
    48 <= n && n <= 57
}

/// Parses a dosage level from user input: optional surrounding
/// whitespace around an optional plus sign and one or more decimal digits
/// whose value fits a u32.
pub fn parse_level_input(level: &String) -> (r: Option<u32>)
    ensures
        r == parse_level(level@),
{
    let s = level.as_str();
    let n = s.unicode_len();
    let mut start: usize = 0;
    while start < n && is_space_char(s.get_char(start))
        invariant
            0 <= start <= n == level@.len(),
            s@ == level@,
            forall|i: int| 0 <= i < start ==> is_space(level@[i]),
        decreases n - start,
    {
        start = start + 1;
    }
    let mut end: usize = n;
    while end > start && is_space_char(s.get_char(end - 1))
        invariant
            start <= end <= n == level@.len(),
            s@ == level@,
            forall|i: int| end <= i < n ==> is_space(level@[i]),
        decreases end,
    {
        end = end - 1;
    }
    let ghost t = level@.subrange(start as int, end as int);
    proof {
        lemma_trim_start_is_skip(level@, start as int);
        if end > start {
            lemma_trim_end_is_take(level@.skip(start as int), (end - start) as int);
        } else {
            lemma_trim_end_is_take(level@.skip(start as int), 0);
        }
        assert(level@.skip(start as int).take((end - start) as int) =~= t);
        assert(trimmed(level@) == t);
    }
    if start == end {
        proof {
            assert(t.len() == 0);
            assert(digits_of(t).len() == 0);
        }
        return None;
    }
    let first = s.get_char(start);
    let digits_start: usize = if first == '+' {
        start + 1
    } else {
        start
    };
    let ghost digits = level@.subrange(digits_start as int, end as int);
    proof {
        assert(t[0] == level@[start as int]);
        if first == '+' {
            assert(t.drop_first() =~= digits);
        } else {
            assert(t =~= digits);
        }
        assert(digits_of(t) == digits);
    }
    if digits_start == end {
        proof {
            assert(digits.len() == 0);
        }
        return None;
    }
    let mut acc: u64 = 0;
    let mut too_big = false;
    let mut j: usize = digits_start;
    while j < end
        invariant
            digits_start <= j <= end <= level@.len(),
            s@ == level@,
            digits == level@.subrange(digits_start as int, end as int),
            digits_of(trimmed(level@)) == digits,
            forall|i: int| digits_start <= i < j ==> is_digit(level@[i]),
            !too_big ==> acc == digits_value(digits.take(j - digits_start)) && acc <= u32::MAX,
            too_big ==> digits_value(digits.take(j - digits_start)) > u32::MAX,
        decreases end - j,
    {
        let c = s.get_char(j);
        proof {
            assert(digits[j - digits_start] == level@[j as int]);
        }
        if !is_digit_char(c) {
            proof {
                assert(!all_digits(digits));
            }
            return None;
        }
        let d: u32 = (c as u32) - 48;
        proof {
            assert(digits.take(j - digits_start + 1).drop_last() =~= digits.take(
                j - digits_start,
            ));
            assert(digits.take(j - digits_start + 1).last() == digits[j - digits_start]);
        }
        if !too_big {
            let next: u64 = acc * 10 + d as u64;
            if next > 0xFFFF_FFFF {
                too_big = true;
            } else {
                acc = next;
            }
        }
        j = j + 1;
    }
    proof {
        assert(digits.take(end - digits_start) =~= digits);
        assert(all_digits(digits)) by {
            assert(forall|i: int|
                0 <= i < digits.len() ==> digits[i] == level@[i + digits_start] && is_digit(
                    level@[i + digits_start],
                ));
        }
    }
    if too_big {
        return None;
    }
    Some(acc as u32)
}

impl RecipeInterface {
    /// A fresh recipe: no water assigned yet, a default dose of 25 g, no
    /// double selected.
    pub fn init() -> (r: RecipeInterface)
        ensures
            r.water_dosage_ml == 0,
            r.coffee_dosage_g == 25,
            !r.double,
    {
        RecipeInterface { water_dosage_ml: 0, double: false, coffee_dosage_g: 25 }
    }

    /// Selects or clears the double-shot option.
    pub fn set_double(&mut self, double: bool)
        ensures
            final(self).double == double,
            final(self).water_dosage_ml == old(self).water_dosage_ml,
            final(self).coffee_dosage_g == old(self).coffee_dosage_g,
    {
        self.double = double;
    }

    /// Sets the coffee dosage from user input, coercing anything outside
    /// the accepted range 10..=20 (or unparsable input) to half the upper
    /// limit.
    pub fn set_coffee_dosage(&mut self, level: String)
        ensures
            final(self).coffee_dosage_g == coerced_dosage(level@),
            final(self).water_dosage_ml == old(self).water_dosage_ml,
            final(self).double == old(self).double,
    {
        let lower_limit: u32 = 10;
        let upper_limit: u32 = 20;
        self.coffee_dosage_g = match parse_level_input(&level) {
            Option::Some(num) => if lower_limit <= num && num <= upper_limit {
                num
            } else {
                upper_limit / 2
            },
            Option::None => upper_limit / 2,
        };
    }

    /// Updates the water amount and applies the double-shot option to the
    /// dose.
    pub fn update_recipe(&mut self)
        requires
            old(self).water_dosage_ml + 2 * old(self).coffee_dosage_g <= u32::MAX,
            old(self).double ==> 2 * old(self).coffee_dosage_g <= u32::MAX && old(self).water_dosage_ml + 6 * old(self).coffee_dosage_g <= u32::MAX,
        ensures
            final(self).double == old(self).double,
            ({
                if old(self).double {
                    final(self).coffee_dosage_g == 2 * old(self).coffee_dosage_g && final(self).water_dosage_ml == old(self).water_dosage_ml + 6 * old(self).coffee_dosage_g
                } else {
                    final(self).coffee_dosage_g == old(self).coffee_dosage_g && final(self).water_dosage_ml == old(self).water_dosage_ml + 2 * old(self).coffee_dosage_g
                }
            }),
    {
        self.set_water_amount_ml();
        self.doubles_coffee_and_water_dosage_g();
    }

    /// Adds twice as much water to the recipe as there is coffee in the
    /// dose.
    pub fn set_water_amount_ml(&mut self)
        requires
            old(self).water_dosage_ml + 2 * old(self).coffee_dosage_g <= u32::MAX,
        ensures
            final(self).water_dosage_ml == old(self).water_dosage_ml + 2 * old(self).coffee_dosage_g,
            final(self).coffee_dosage_g == old(self).coffee_dosage_g,
            final(self).double == old(self).double,
    {
        self.water_dosage_ml = self.water_dosage_ml + self.coffee_dosage_g * 2;
    }

    /// When a double is selected, doubles the coffee dosage and adds the
    /// water for the extra coffee.
    pub fn doubles_coffee_and_water_dosage_g(&mut self)
        requires
            old(self).double ==> 2 * old(self).coffee_dosage_g <= u32::MAX && old(self).water_dosage_ml + 4 * old(self).coffee_dosage_g <= u32::MAX,
        ensures
            final(self).double == old(self).double,
            ({
                if old(self).double {
                    final(self).coffee_dosage_g == 2 * old(self).coffee_dosage_g && final(self).water_dosage_ml == old(self).water_dosage_ml + 4 * old(self).coffee_dosage_g
                } else {
                    final(self).coffee_dosage_g == old(self).coffee_dosage_g && final(self).water_dosage_ml == old(self).water_dosage_ml
                }
            }),
    {
        if self.double {
            self.coffee_dosage_g = self.coffee_dosage_g * 2;
            self.set_water_amount_ml();
        }
    }
}

impl Resources {
    /// Enough beans for the dose, enough water for the dose, and room left
    /// in the grounds bin.
    pub open spec fn has_enough(&self, recipe: &RecipeInterface) -> bool {
        &&& self.amount_of_coffee_beans_g > recipe.coffee_dosage_g
        &&& self.amount_of_water_ml > recipe.water_dosage_ml
        &&& self.amount_of_residues_g < 1000
    }

    /// Fresh tallies: everything empty.
    pub fn init() -> (r: Resources)
        ensures
            r.amount_of_water_ml == 0,
            r.amount_of_coffee_beans_g == 0,
            r.amount_of_residues_g == 0,
    {
        Resources { amount_of_coffee_beans_g: 0, amount_of_residues_g: 0, amount_of_water_ml: 0 }
    }

    /// Simulates the user topping up the water tank.
    pub fn sim_user_add_water(&mut self, amount_added_ml: u32)
        requires
            old(self).amount_of_water_ml + amount_added_ml <= u32::MAX,
        ensures
            final(self).amount_of_water_ml == old(self).amount_of_water_ml + amount_added_ml,
            final(self).amount_of_coffee_beans_g == old(self).amount_of_coffee_beans_g,
            final(self).amount_of_residues_g == old(self).amount_of_residues_g,
    {
        self.amount_of_water_ml = self.amount_of_water_ml + amount_added_ml;
    }

    /// Simulates the user refilling beans: the stored tally grows by the
    /// current stock plus the amount added.
    pub fn sim_user_add_beans(&mut self, amount_added_g: u32)
        requires
            2 * old(self).amount_of_coffee_beans_g + amount_added_g <= u32::MAX,
        ensures
            final(self).amount_of_coffee_beans_g == 2 * old(self).amount_of_coffee_beans_g
                + amount_added_g,
            final(self).amount_of_water_ml == old(self).amount_of_water_ml,
            final(self).amount_of_residues_g == old(self).amount_of_residues_g,
    {
        self.amount_of_coffee_beans_g = self.amount_of_coffee_beans_g
            + (self.amount_of_coffee_beans_g + amount_added_g);
    }

    /// Adds the dose just brewed to the residues in the grounds bin.
    pub fn count_residues(&mut self, recipe: &RecipeInterface)
        requires
            old(self).amount_of_residues_g + recipe.coffee_dosage_g <= u32::MAX,
        ensures
            final(self).amount_of_residues_g == old(self).amount_of_residues_g
                + recipe.coffee_dosage_g,
            final(self).amount_of_water_ml == old(self).amount_of_water_ml,
            final(self).amount_of_coffee_beans_g == old(self).amount_of_coffee_beans_g,
    {
        self.amount_of_residues_g = self.amount_of_residues_g + recipe.coffee_dosage_g;
    }

    /// Whether the machine holds more beans and more water than the recipe
    /// asks for, with room left in the grounds bin.
    pub fn check_resources(&mut self, recipe: &RecipeInterface) -> (r: bool)
        ensures
            *final(self) == *old(self),
            r == old(self).has_enough(recipe),
    {
        self.amount_of_coffee_beans_g > recipe.coffee_dosage_g && self.amount_of_water_ml
            > recipe.water_dosage_ml && self.amount_of_residues_g < 1000
    }

    /// The current (beans, water) amounts.
    pub fn get_resource_amount(&self) -> (r: (u32, u32))
        ensures
            r.0 == self.amount_of_coffee_beans_g,
            r.1 == self.amount_of_water_ml,
    {
        (self.amount_of_coffee_beans_g, self.amount_of_water_ml)
    }
}

} // verus!
