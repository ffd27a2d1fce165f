//! Addresses of objects in a store, as lists of segments.

use crate::segments::{copy_segments, leading_segments, lemma_names_push, names, optional_name, same_segments};
use vstd::prelude::*;

verus! {

/// What an address is: the directories from the top of the store downwards,
/// and the name of the file that the address ends in, if it names a file.
#[verifier::ext_equal]
pub struct PathAddressView {
    pub directories: Seq<Seq<char>>,
    pub file_name: Option<Seq<char>>,
}

/// The character that ends every directory of a rendered address.
pub open spec fn delimiter() -> char {
    '/'
}

/// The directories of an address in one line, each followed by the delimiter.
pub open spec fn render_directories(directories: Seq<Seq<char>>) -> Seq<char>
    decreases directories.len(),
{
    if directories.len() == 0 {
        Seq::empty()
    } else {
        render_directories(directories.drop_last()) + directories.last() + seq![delimiter()]
    }
}

impl PathAddressView {
    /// The address of the top of a store: no directory, no file.
    pub open spec fn empty() -> Self {
        PathAddressView { directories: Seq::empty(), file_name: None }
    }

    /// This address with one more directory below its directories.
    pub open spec fn push_dir(self, part: Seq<char>) -> Self {
        PathAddressView { directories: self.directories.push(part), file_name: self.file_name }
    }

    /// This address with `parts` as further directories below its directories.
    pub open spec fn join(self, parts: Seq<Seq<char>>) -> Self {
        PathAddressView { directories: self.directories + parts, file_name: self.file_name }
    }

    /// This address, ending in the file `name`.
    pub open spec fn with_file_name(self, name: Seq<char>) -> Self {
        PathAddressView { directories: self.directories, file_name: Some(name) }
    }

    /// All segments in order: the directories, then the file name if there is one.
    pub open spec fn segments(self) -> Seq<Seq<char>> {
        match self.file_name {
            Some(name) => self.directories.push(name),
            None => self.directories,
        }
    }

    /// Whether this address lies at or below `prefix`, compared segment by
    /// segment. The directories of `prefix` must be the first directories of
    /// this address; a `prefix` that names a file has nothing below it and is
    /// matched by itself alone.
    pub open spec fn starts_with(self, prefix: Self) -> bool {
        match prefix.file_name {
            None => prefix.directories.is_prefix_of(self.directories),
            Some(_) => self == prefix,
        }
    }

    /// The segments of this address that follow those of `prefix`.
    pub open spec fn after(self, prefix: Self) -> Seq<Seq<char>>
        recommends
            self.starts_with(prefix),
    {
        self.segments().skip(prefix.segments().len() as int)
    }

    /// The address in one line: every directory followed by the delimiter,
    /// then the file name.
    pub open spec fn render(self) -> Seq<char> {
        match self.file_name {
            Some(name) => render_directories(self.directories) + name,
            None => render_directories(self.directories),
        }
    }
}

/// A location in a store: directories, and a file name where the location is
/// that of a file. It is independent of how any store writes its paths.
#[derive(Debug)]
pub struct PathAddress {
    directories: Vec<String>,
    file_name: Option<String>,
}

impl View for PathAddress {
    type V = PathAddressView;

    closed spec fn view(&self) -> PathAddressView {
        PathAddressView {
            directories: names(self.directories@),
            file_name: optional_name(self.file_name),
        }
    }
}

impl PathAddress {
    /// The address of the top of a store.
    pub fn new() -> (address: Self)
        ensures
            address@ == PathAddressView::empty(),
    {
        let address = PathAddress { directories: Vec::new(), file_name: None };
        assert(address@.directories =~= Seq::empty());
        address
    }

    /// Adds `part` as a directory below the directories of this address.
    pub fn push_dir(&mut self, part: &str)
        ensures
            final(self)@ == old(self)@.push_dir(part@),
    {
        let ghost before = self.directories@;
        self.directories.push(part.to_owned());
        proof {
            lemma_names_push(before, self.directories@.last());
        }
    }

    /// Lets this address end in the file `name`.
    pub fn set_file_name(&mut self, name: &str)
        ensures
            final(self)@ == old(self)@.with_file_name(name@),
    {
        self.file_name = Some(name.to_owned());
    }

    /// The directories of this address, from the top downwards.
    pub fn directories(&self) -> (directories: &Vec<String>)
        ensures
            names(directories@) == self@.directories,
    {
        &self.directories
    }

    /// The name of the file that this address ends in, if it names one.
    pub fn file_name(&self) -> (file_name: Option<&String>)
        ensures
            file_name is Some == self@.file_name is Some,
            file_name matches Some(name) ==> self@.file_name == Some(name@),
    {
        self.file_name.as_ref()
    }

    /// Whether this address lies at or below `prefix`.
    pub fn starts_with(&self, prefix: &PathAddress) -> (below: bool)
        ensures
            below == self@.starts_with(prefix@),
    {
        match &prefix.file_name {
            None => leading_segments(&prefix.directories, &self.directories),
            Some(_) => self.eq(prefix),
        }
    }

    /// The segments of this address that follow those of `prefix`, if this
    /// address lies at or below `prefix`.
    pub fn parts_after_prefix(&self, prefix: &PathAddress) -> (parts: Option<Vec<String>>)
        ensures
            parts is Some == self@.starts_with(prefix@),
            parts matches Some(rest) ==> names(rest@) == self@.after(prefix@),
    {
        if !self.starts_with(prefix) {
            return None;
        }
        let mut rest: Vec<String> = Vec::new();
        let mut i: usize = prefix.directories.len();
        assert(names(prefix.directories@).len() <= names(self.directories@).len());
        assert(names(rest@) =~= names(self.directories@).subrange(i as int, i as int));
        while i < self.directories.len()
            invariant
                prefix.directories.len() <= i <= self.directories.len(),
                names(rest@) == names(self.directories@).subrange(
                    prefix.directories.len() as int,
                    i as int,
                ),
            decreases self.directories.len() - i,
        {
            let ghost before = rest@;
            rest.push(self.directories[i].clone());
            proof {
                lemma_names_push(before, rest@.last());
                assert(names(rest@) =~= names(self.directories@).subrange(
                    prefix.directories.len() as int,
                    i + 1,
                ));
            }
            i += 1;
        }
        if prefix.file_name.is_none() {
            match &self.file_name {
                Some(name) => {
                    let ghost before = rest@;
                    rest.push(name.clone());
                    proof {
                        lemma_names_push(before, rest@.last());
                    }
                },
                None => {},
            }
        }
        assert(names(rest@) =~= self@.after(prefix@));
        Some(rest)
    }

    /// The address in one line: every directory followed by `/`, then the
    /// file name.
    pub fn render(&self) -> (line: String)
        ensures
            line@ == self@.render(),
    {
        let mut line: String = String::new();
        let mut i: usize = 0;
        while i < self.directories.len()
            invariant
                i <= self.directories.len(),
                line@ == render_directories(names(self.directories@).take(i as int)),
            decreases self.directories.len() - i,
        {
            line.append(self.directories[i].as_str());
            line.append("/");
            proof {
                reveal_strlit("/");
                let upto = names(self.directories@).take(i + 1);
                assert(upto.drop_last() =~= names(self.directories@).take(i as int));
                assert(upto.last() == self.directories@[i as int]@);
            }
            i += 1;
        }
        assert(names(self.directories@).take(self.directories.len() as int) =~= names(
            self.directories@,
        ));
        match &self.file_name {
            Some(name) => {
                line.append(name.as_str());
            },
            None => {},
        }
        line
    }

}

impl Clone for PathAddress {
    fn clone(&self) -> (copy: Self)
        ensures
            copy@ == self@,
    {
        let file_name: Option<String> = match &self.file_name {
            Some(name) => Some(name.clone()),
            None => None,
        };
        PathAddress { directories: copy_segments(&self.directories), file_name }
    }
}

/// Two addresses are equal when they have the same directories and the same
/// file name: they are compared segment by segment, never as rendered lines.
impl PartialEq for PathAddress {
    fn eq(&self, other: &Self) -> (same: bool) {
        let same_file: bool = match (&self.file_name, &other.file_name) {
            (Some(mine), Some(theirs)) => *mine == *theirs,
            (None, None) => true,
            _ => false,
        };
        let same: bool = same_file && same_segments(&self.directories, &other.directories);
        assert(same == (self@ =~= other@));
        same
    }
}

impl vstd::std_specs::cmp::PartialEqSpecImpl for PathAddress {
    open spec fn obeys_eq_spec() -> bool {
        true
    }

    open spec fn eq_spec(&self, other: &Self) -> bool {
        self@ == other@
    }
}

impl Eq for PathAddress {

}

} // verus!
