use vstd::prelude::*;
use codespan::{FileMap, FileName};

verus! {

#[verifier::external_type_specification]
#[verifier::external_body]
#[verifier::reject_recursive_types(S)]
pub struct ExFileMap<S>(FileMap<S>);

/// Relies on codespan's FileMap::new (with FileName::real): a standalone source map of
/// `text` under the name `name`, used to render diagnostics with source context.
#[verifier::external_body]
fn new_file_map(name: &str, text: String) -> (r: FileMap<String>) {
    FileMap::new(FileName::real(name), text)
}

/// One registered file: its name, its sanitized text, and its source map.
pub struct FileRecord {
    pub name: String,
    pub text: String,
    pub map: FileMap<String>,
}

/// The registry of loaded files, from file name to sanitized text. A later
/// registration of a name replaces an earlier one.
pub struct Files {
    records: Vec<FileRecord>,
}

/// The map that a sequence of registrations builds, the later ones winning.
pub open spec fn registrations_map(s: Seq<(Seq<char>, Seq<char>)>) -> Map<Seq<char>, Seq<char>>
    decreases s.len(),
{
    if s.len() == 0 {
        Map::empty()
    } else {
        registrations_map(s.drop_last()).insert(s.last().0, s.last().1)
    }
}

proof fn lemma_registration_found(s: Seq<(Seq<char>, Seq<char>)>, n: Seq<char>, k: int)
    requires
        0 <= k < s.len(),
        s[k].0 == n,
        forall|j: int| k < j < s.len() ==> s[j].0 != n,
    ensures
        registrations_map(s).contains_key(n),
        registrations_map(s)[n] == s[k].1,
    decreases s.len(),
{
    if k < s.len() - 1 {
        lemma_registration_found(s.drop_last(), n, k);
    }
}

proof fn lemma_registration_absent(s: Seq<(Seq<char>, Seq<char>)>, n: Seq<char>)
    requires
        forall|j: int| 0 <= j < s.len() ==> s[j].0 != n,
    ensures
        !registrations_map(s).contains_key(n),
    decreases s.len(),
{
    if s.len() > 0 {
        lemma_registration_absent(s.drop_last(), n);
    }
}

impl Files {
    pub closed spec fn registrations(&self) -> Seq<(Seq<char>, Seq<char>)> {
        self.records@.map_values(|r: FileRecord| (r.name@, r.text@))
    }

    /// File name to sanitized text.
    pub open spec fn view(&self) -> Map<Seq<char>, Seq<char>> {
        registrations_map(self.registrations())
    }

    pub fn new() -> (r: Files)
        ensures
            r@ == Map::<Seq<char>, Seq<char>>::empty(),
    {
        Files { records: Vec::new() }
    }

    /// Register `text` as the sanitized text of `name`.
    pub fn insert(&mut self, name: &str, text: String)
        ensures
            final(self)@ == old(self)@.insert(name@, text@),
    {
        let ghost before = self.registrations();
        let map = new_file_map(name, text.clone());
        self.records.push(FileRecord { name: name.to_owned(), text, map });
        assert(self.registrations().drop_last() =~= before);
    }

    /// The record registered last under `name`, if any.
    pub fn get(&self, name: &str) -> (r: Option<&FileRecord>)
        ensures
            r is Some <==> self@.contains_key(name@),
            r matches Some(rec) ==> rec.name@ == name@ && rec.text@ == self@[name@],
    {
        let key = name.to_owned();
        let mut i: usize = self.records.len();
        while i > 0
            invariant
                i <= self.records@.len(),
                key@ == name@,
                forall|j: int| i <= j < self.records@.len() ==> self.registrations()[j].0 != name@,
            decreases i,
        {
            i = i - 1;
            if self.records[i].name == key {
                proof {
                    lemma_registration_found(self.registrations(), name@, i as int);
                }
                return Some(&self.records[i]);
            }
        }
        proof {
            lemma_registration_absent(self.registrations(), name@);
        }
        None
    }

    /// The number of registrations made.
    pub fn len(&self) -> (r: usize)
        ensures
            r == self.registrations().len(),
    {
        self.records.len()
    }
}

} // verus!
