//! Vectors, hash maps, iterators and strings.

use vstd::hash_map::StringHashMap;
use vstd::prelude::*;
use vstd::string::StrSliceExecFns;
use vstd::string::StringExecFns;

verus! {

/// Lets a vector grow by the items of another, then makes an empty vector
/// of texts.
pub fn vectors() -> (made: (Vec<i32>, Vec<String>))
    ensures
        made.0@ == seq![1i32, 2i32, 3i32, 4i32, 5i32, 9i32, 80i32, 35i32, 658i32],
        made.1@ == Seq::<String>::empty(),
{
    let mut vector: Vec<i32> = vec![1, 2, 3, 4, 5, 9];
    let mut vector2: Vec<i32> = vec![80, 35, 658];
    vector.append(&mut vector2);
    let vector3: Vec<String> = Vec::new();
    (vector, vector3)
}

/// The review of a book, if it has one.
pub fn review_of(reviews: &StringHashMap<String>, book: &str) -> (review: Option<String>)
    ensures
        match review {
            Some(text) => reviews@.contains_key(book@) && text == reviews@[book@],
            None => !reviews@.contains_key(book@),
        },
{
    match reviews.get(book) {
        Some(review) => Some(review.clone()),
        None => None,
    }
}

/// What `hash_map` finds.
#[derive(Clone, Debug, PartialEq, Eq)]
pub struct Reviewed {
    /// How many books have a review once three are in.
    pub len: usize,
    /// Whether the book that was taken out is still there.
    pub contains: bool,
    /// The reviews of the book that was taken out and of one that stayed.
    pub found: Vec<Option<String>>,
}

/// Puts three reviews into a map from title to review, takes one out
/// again, and looks two titles up: the one that was taken out and one
/// that stayed.
pub fn hash_map() -> (found: Reviewed)
    ensures
        found.len == 3,
        !found.contains,
        found.found@.len() == 2,
        found.found@[0] is None,
        found.found@[1] matches Some(text) && text@ == "My favorite book."@,
{
    broadcast use vstd::hash_map::group_hash_map_axioms;

    let mut reviews = StringHashMap::<String>::new();
    reviews.insert(
        String::from_str("Adventures of Huckleberry Finn"),
        String::from_str("My favorite book."),
    );
    reviews.insert(String::from_str("Grimms' Fairy Tales"), String::from_str("Masterpiece."));
    reviews.insert(String::from_str("Pride and Prejudice"), String::from_str("Very enjoyable."));
    proof {
        reveal_strlit("Adventures of Huckleberry Finn");
        reveal_strlit("Grimms' Fairy Tales");
        reveal_strlit("Pride and Prejudice");
        assert("Grimms' Fairy Tales"@[0] != "Pride and Prejudice"@[0]);
    }
    let len = reviews.len();
    reviews.remove("Pride and Prejudice");
    let contains = reviews.contains_key("Pride and Prejudice");
    let to_find: [&str; 2] = ["Pride and Prejudice", "Adventures of Huckleberry Finn"];
    let mut found: Vec<Option<String>> = Vec::new();
    let mut i: usize = 0;
    while i < 2
        invariant
            i <= 2,
            found@.len() == i,
            forall|k: int|
                0 <= k < i ==> match #[trigger] found@[k] {
                    Some(text) => reviews@.contains_key(to_find@[k]@) && text == reviews@[to_find@[k]@],
                    None => !reviews@.contains_key(to_find@[k]@),
                },
        decreases 2 - i,
    {
        found.push(review_of(&reviews, to_find[i]));
        i += 1;
    }
    Reviewed { len, contains, found }
}


/// `String::push` of std puts one character behind the text.
pub assume_specification[ String::push ](s: &mut String, ch: char)
    ensures
        final(s)@ == old(s)@.push(ch),
;

/// What `string_basics` builds.
#[derive(Clone, Debug, PartialEq, Eq)]
pub struct Texts {
    /// The text that was appended to.
    pub s: String,
    /// The two texts joined by a hyphen.
    pub s3: String,
    /// The first four letters of the joined text.
    pub b: String,
    /// The bytes of those four letters.
    pub c: Vec<u8>,
}

/// Builds a text by appending a text and a character, joins it to another
/// with a hyphen between them, cuts the first four letters out by a range
/// and takes their bytes.
pub fn string_basics() -> (texts: Texts)
    ensures
        texts.s@ == "something You"@,
        texts.s3@ == "something You-Hello"@,
        texts.b@ == "some"@,
        texts.c@ == seq![115u8, 111u8, 109u8, 101u8],
{
    broadcast use vstd::string::is_ascii_spec_bytes;

    let mut s = String::new();
    s = String::from_str("something");
    let a = String::from_str("Hello");
    s.append(" Yo");
    s.push('u');
    let s3 = s.clone().concat("-").concat(a.as_str());
    proof {
        reveal_strlit("something");
        reveal_strlit(" Yo");
        reveal_strlit("-");
        reveal_strlit("Hello");
        reveal_strlit("something You");
        reveal_strlit("something You-Hello");
        reveal_strlit("some");
    }
    let b = s3.as_str().substring_ascii(0, 4);
    let c = b.as_bytes_vec();
    let b = String::from_str(b);
    Texts { s, s3, b, c }
}


/// Whether a name passes the filter: every name does, unless it begins
/// with a capital B.
pub open spec fn keeps(name: Seq<char>) -> bool {
    name.len() == 0 || name[0] != 'B'
}

/// Looks at the first letter of a name, if it has one.
pub fn passes(name: &str) -> (kept: bool)
    ensures
        kept == keeps(name@),
{
    broadcast use vstd::string::group_string_axioms;

    let mut letters = name.chars();
    match letters.next() {
        Some(i) => !(i == 'B'),
        None => true,
    }
}

/// A filter keeps all of a sequence whose items all pass it.
proof fn lemma_filter_keeps_all<A>(s: Seq<A>, pred: spec_fn(A) -> bool)
    requires
        forall|i: int| 0 <= i < s.len() ==> pred(#[trigger] s[i]),
    ensures
        s.filter(pred) == s,
    decreases s.len(),
{
    reveal(Seq::filter);
    if s.len() > 0 {
        lemma_filter_keeps_all(s.drop_last(), pred);
    }
}

/// The names that pass the filter, in their order.
pub fn filter_names<'a>(names: &Vec<&'a str>) -> (kept: Vec<&'a str>)
    ensures
        kept@ == names@.filter(|name: &'a str| keeps(name@)),
{
    let ghost pred = |name: &'a str| keeps(name@);
    let mut kept: Vec<&'a str> = Vec::new();
    let mut i: usize = 0;
    proof {
        reveal(Seq::filter);
    }
    while i < names.len()
        invariant
            i <= names.len(),
            pred == (|name: &'a str| keeps(name@)),
            kept@ == names@.take(i as int).filter(pred),
        decreases names.len() - i,
    {
        let name = names[i];
        proof {
            reveal(Seq::filter);
            assert(names@.take(i + 1).drop_last() =~= names@.take(i as int));
        }
        if passes(name) {
            kept.push(name);
        }
        i += 1;
    }
    assert(names@.take(i as int) =~= names@);
    kept
}

/// An owned text for each name.
pub fn to_strings(names: &Vec<&str>) -> (owned: Vec<String>)
    ensures
        owned@.len() == names@.len(),
        forall|k: int| 0 <= k < names@.len() ==> (#[trigger] owned@[k])@ == names@[k]@,
{
    let mut owned: Vec<String> = Vec::new();
    let mut i: usize = 0;
    while i < names.len()
        invariant
            i <= names.len(),
            owned@.len() == i,
            forall|k: int| 0 <= k < i ==> (#[trigger] owned@[k])@ == names@[k]@,
        decreases names.len() - i,
    {
        owned.push(String::from_str(names[i]));
        i += 1;
    }
    owned
}

/// Puts "no way its you, " before each name, in place.
pub fn greet_all(names: &mut Vec<String>)
    ensures
        final(names)@.len() == old(names)@.len(),
        forall|k: int|
            0 <= k < old(names)@.len() ==> (#[trigger] final(names)@[k])@ == "no way its you, "@
                + old(names)@[k]@,
{
    let other = "no way its you, ";
    let mut i: usize = 0;
    while i < names.len()
        invariant
            i <= names.len(),
            names@.len() == old(names)@.len(),
            forall|k: int| 0 <= k < i ==> (#[trigger] names@[k])@ == other@ + old(names)@[k]@,
            forall|k: int| i <= k < names@.len() ==> #[trigger] names@[k] == old(names)@[k],
            other@ == "no way its you, "@,
        decreases names.len() - i,
    {
        let greeted = String::from_str(other).concat(names[i].as_str());
        names[i] = greeted;
        i += 1;
    }
}

/// Puts "ahahaha" in the place of each name.
pub fn rename_all(names: &mut Vec<&'static str>)
    ensures
        final(names)@.len() == old(names)@.len(),
        forall|k: int| 0 <= k < old(names)@.len() ==> (#[trigger] final(names)@[k])@ == "ahahaha"@,
{
    let mut i: usize = 0;
    while i < names.len()
        invariant
            i <= names.len(),
            names@.len() == old(names)@.len(),
            forall|k: int| 0 <= k < i ==> (#[trigger] names@[k])@ == "ahahaha"@,
        decreases names.len() - i,
    {
        names[i] = "ahahaha";
        i += 1;
    }
}

/// What `iterators` passes on its way.
#[derive(Clone, Debug, PartialEq, Eq)]
pub struct Iterated {
    /// The names as the first two walks see them.
    pub given: Vec<&'static str>,
    /// The names after the walk that changes each of them.
    pub names: Vec<&'static str>,
    /// Those of them that the filter keeps.
    pub names1: Vec<&'static str>,
    /// The kept names as owned texts, each with its greeting.
    pub names2: Vec<String>,
    /// How many there are, counted one by one.
    pub count: usize,
}

/// Walks three names by shared borrow, changes each one by mutable
/// borrow, filters them by their first letter, maps them to owned texts,
/// greets each and counts them. After the change no name begins with B,
/// so the filter keeps all three.
pub fn iterators() -> (found: Iterated)
    ensures
        found.given@.len() == 3,
        found.given@[0]@ == "Bob"@,
        found.given@[1]@ == "Frank"@,
        found.given@[2]@ == "Ferris"@,
        found.names@.len() == 3,
        forall|k: int| 0 <= k < 3 ==> (#[trigger] found.names@[k])@ == "ahahaha"@,
        found.names1@ == found.names@,
        found.names2@.len() == 3,
        forall|k: int| 0 <= k < 3 ==> (#[trigger] found.names2@[k])@ == "no way its you, ahahaha"@,
        found.count == 3,
{
    let mut names: Vec<&'static str> = vec!["Bob", "Frank", "Ferris"];
    let given = names.clone();
    rename_all(&mut names);
    let names1 = filter_names(&names);
    proof {
        reveal_strlit("ahahaha");
        lemma_filter_keeps_all(names@, |name: &'static str| keeps(name@));
    }
    let mut names2 = to_strings(&names1);
    greet_all(&mut names2);
    proof {
        reveal_strlit("no way its you, ");
        reveal_strlit("no way its you, ahahaha");
    }
    let mut count: usize = 0;
    let mut i: usize = 0;
    while i < names2.len()
        invariant
            i <= names2.len(),
            count == i,
        decreases names2.len() - i,
    {
        count = count + 1;
        i += 1;
    }
    Iterated { given, names, names1, names2, count }
}

} // verus!
