//! Credential lookup: the collaborator that maps subjects to and from
//! application-native credentials.
//!
//! The lookup contract is the `Repository` trait; `CredentialStore` is its
//! in-memory implementation, loaded either from flat-file text in the
//! `id,username,password` comma-separated format or from the entries of a
//! cluster secret whose values hold `username:password` pairs.

use vstd::prelude::*;
use vstd::string::StringExecFns;

use crate::split::{split_on, split_string, strings_view};

verus! {

/// One stored credential: a subject identifier with the username and
/// password it translates to.
#[derive(Debug, Clone, PartialEq, Eq)]
pub struct CredentialEntry {
    pub id: String,
    pub username: String,
    pub password: String,
}

/// The mathematical image of a credential entry.
pub struct EntryView {
    pub id: Seq<char>,
    pub username: Seq<char>,
    pub password: Seq<char>,
}

impl View for CredentialEntry {
    type V = EntryView;

    open spec fn view(&self) -> EntryView {
        EntryView { id: self.id@, username: self.username@, password: self.password@ }
    }
}

pub open spec fn entries_view(es: Seq<CredentialEntry>) -> Seq<EntryView> {
    es.map_values(|e: CredentialEntry| e@)
}

/// The subject of the first entry matching a username and password.
pub open spec fn find_id(es: Seq<EntryView>, username: Seq<char>, password: Seq<char>) -> Option<
    Seq<char>,
>
    decreases es.len(),
{
    if es.len() == 0 {
        None
    } else if es.first().username == username && es.first().password == password {
        Some(es.first().id)
    } else {
        find_id(es.drop_first(), username, password)
    }
}

/// The username and password of the first entry for a subject.
pub open spec fn find_user(es: Seq<EntryView>, user_id: Seq<char>) -> Option<
    (Seq<char>, Seq<char>),
>
    decreases es.len(),
{
    if es.len() == 0 {
        None
    } else if es.first().id == user_id {
        Some((es.first().username, es.first().password))
    } else {
        find_user(es.drop_first(), user_id)
    }
}

/// A read-only credential lookup. Both operations are side-effect-free and
/// idempotent: they are pinned to the spec functions of the implementation,
/// so repeated calls on unchanged state return the same answer.
pub trait Repository: Sized {
    /// What `lookup_id` returns.
    spec fn lookup_id_spec(&self, username: Seq<char>, password: Seq<char>) -> Option<Seq<char>>;

    /// What `lookup_user` returns.
    spec fn lookup_user_spec(&self, user_id: Seq<char>) -> Option<(Seq<char>, Seq<char>)>;

    /// The subject a username and password pair resolves to.
    fn lookup_id(&self, username: &str, password: &str) -> (r: Option<String>)
        ensures
            r is Some <==> self.lookup_id_spec(username@, password@) is Some,
            r is Some ==> Some((r->0)@) == self.lookup_id_spec(username@, password@),
    ;

    /// The username and password stored for a subject.
    fn lookup_user(&self, user_id: &str) -> (r: Option<(String, String)>)
        ensures
            r is Some <==> self.lookup_user_spec(user_id@) is Some,
            r is Some ==> Some(((r->0).0@, (r->0).1@)) == self.lookup_user_spec(user_id@),
    ;
}

/// The fixed header line expected at the top of flat-file credential text.
pub open spec fn csv_header() -> Seq<char> {
    "id,username,password"@
}

/// The entry described by one data line: exactly three comma-separated
/// fields.
pub open spec fn entry_of_line(line: Seq<char>) -> Option<EntryView> {
    let fields = split_on(line, ',');
    if fields.len() == 3 {
        Some(EntryView { id: fields[0], username: fields[1], password: fields[2] })
    } else {
        None
    }
}

/// The entries described by the data lines, empty lines skipped; `None` if
/// any nonempty line is malformed.
pub open spec fn entries_of_lines(lines: Seq<Seq<char>>) -> Option<Seq<EntryView>>
    decreases lines.len(),
{
    if lines.len() == 0 {
        Some(Seq::empty())
    } else if lines.first().len() == 0 {
        entries_of_lines(lines.drop_first())
    } else {
        match (entry_of_line(lines.first()), entries_of_lines(lines.drop_first())) {
            (Some(e), Some(rest)) => Some(seq![e] + rest),
            _ => None,
        }
    }
}

/// Whether flat-file text opens with the expected header line.
pub open spec fn csv_header_ok(text: Seq<char>) -> bool {
    split_on(text, '\n').first() == csv_header()
}

/// The entries described by flat-file text: a header line followed by data
/// lines.
pub open spec fn csv_entries(text: Seq<char>) -> Option<Seq<EntryView>> {
    if csv_header_ok(text) {
        entries_of_lines(split_on(text, '\n').drop_first())
    } else {
        None
    }
}

/// Why flat-file credential text was rejected.
#[derive(Debug, Clone, Copy, PartialEq, Eq, Structural)]
pub enum CsvError {
    /// The first line is not the expected header.
    MissingHeader,
    /// A nonempty data line does not hold exactly three fields.
    MalformedRecord,
}

/// An in-memory credential store.
pub struct CredentialStore {
    pub entries: Vec<CredentialEntry>,
}

impl CredentialStore {
    pub fn from_entries(entries: Vec<CredentialEntry>) -> (r: Self)
        ensures
            entries_view(r.entries@) == entries_view(entries@),
    {
        CredentialStore { entries }
    }

    /// Load the store from flat-file credential text.
    pub fn from_csv(text: &str) -> (r: Result<Self, CsvError>)
        ensures
            r is Ok <==> csv_entries(text@) is Some,
            r is Ok ==> Some(entries_view((r->Ok_0).entries@)) == csv_entries(text@),
            r == Err::<Self, CsvError>(CsvError::MissingHeader) <==> !csv_header_ok(text@),
    {
        let lines = split_string(text, '\n');
        let ghost lv = strings_view(lines@);
        proof {
            assert(lines@.len() >= 1);
            assert(lv.first() == lines@[0]@);
        }
        let header = String::from_str("id,username,password");
        if !(lines[0] == header) {
            return Err(CsvError::MissingHeader);
        }
        let mut entries: Vec<CredentialEntry> = Vec::new();
        let mut i: usize = 1;
        proof {
            assert(lv.skip(1) =~= lv.drop_first());
            assert(entries_view(entries@) =~= Seq::<EntryView>::empty());
        }
        while i < lines.len()
            invariant
                1 <= i <= lines.len(),
                lv == strings_view(lines@),
                csv_header_ok(text@),
                split_on(text@, '\n') == lv,
                forall|j: int| 0 <= j < lines@.len() ==> lv[j] == lines@[j]@,
                entries_of_lines(lv.drop_first()) is Some <==> entries_of_lines(
                    lv.skip(i as int),
                ) is Some,
                entries_of_lines(lv.drop_first()) is Some ==> entries_of_lines(
                    lv.drop_first(),
                )->0 == entries_view(entries@) + entries_of_lines(lv.skip(i as int))->0,
            decreases lines.len() - i,
        {
            let ghost rest = lv.skip(i as int);
            proof {
                assert(rest.first() == lv[i as int]);
                assert(rest.drop_first() =~= lv.skip(i + 1));
            }
            let line = &lines[i];
            if line.as_str().is_empty() {
                proof {
                    assert(rest.first().len() == 0);
                    assert(entries_of_lines(rest) == entries_of_lines(lv.skip(i + 1)));
                }
                i += 1;
                continue;
            }
            let fields = split_string(line.as_str(), ',');
            proof {
                assert(strings_view(fields@) == split_on(lv[i as int], ','));
            }
            if fields.len() != 3 {
                proof {
                    assert(entry_of_line(rest.first()) is None);
                    assert(entries_of_lines(rest) is None);
                }
                return Err(CsvError::MalformedRecord);
            }
            let id = fields[0].clone();
            let username = fields[1].clone();
            let password = fields[2].clone();
            let entry = CredentialEntry { id, username, password };
            proof {
                assert(strings_view(fields@)[0] == fields@[0]@);
                assert(strings_view(fields@)[1] == fields@[1]@);
                assert(strings_view(fields@)[2] == fields@[2]@);
                assert(entry_of_line(rest.first()) == Some(entry@));
            }
            entries.push(entry);
            proof {
                let prior = entries_view(entries@.drop_last());
                assert(entries_view(entries@) =~= prior + seq![entry@]);
                if entries_of_lines(rest.drop_first()) is Some {
                    let tail_entries = entries_of_lines(lv.skip(i + 1))->0;
                    assert(entries_of_lines(rest) == Some(seq![entry@] + tail_entries));
                    assert(prior + (seq![entry@] + tail_entries) =~= entries_view(entries@)
                        + tail_entries);
                } else {
                    assert(entries_of_lines(rest) is None);
                }
            }
            i += 1;
        }
        proof {
            assert(lv.skip(lines@.len() as int) =~= Seq::<Seq<char>>::empty());
            assert(entries_of_lines(Seq::<Seq<char>>::empty()) == Some(Seq::<EntryView>::empty()));
        }
        Ok(CredentialStore { entries })
    }

    /// The entry described by one cluster-secret item: the item's key is
    /// the subject, its value a `username:password` payload whose first two
    /// colon-separated segments are taken.
    pub fn entry_from_secret(id: &str, payload: &str) -> (r: Option<CredentialEntry>)
        ensures
            r is Some <==> split_on(payload@, ':').len() >= 2,
            r is Some ==> (r->0)@ == (EntryView {
                id: id@,
                username: split_on(payload@, ':')[0],
                password: split_on(payload@, ':')[1],
            }),
    {
        let parts = split_string(payload, ':');
        proof {
            if parts@.len() >= 2 {
                assert(strings_view(parts@)[0] == parts@[0]@);
                assert(strings_view(parts@)[1] == parts@[1]@);
            }
        }
        if parts.len() >= 2 {
            Some(
                CredentialEntry {
                    id: id.to_owned(),
                    username: parts[0].clone(),
                    password: parts[1].clone(),
                },
            )
        } else {
            None
        }
    }
}

impl Repository for CredentialStore {
    open spec fn lookup_id_spec(&self, username: Seq<char>, password: Seq<char>) -> Option<
        Seq<char>,
    > {
        find_id(entries_view(self.entries@), username, password)
    }

    open spec fn lookup_user_spec(&self, user_id: Seq<char>) -> Option<(Seq<char>, Seq<char>)> {
        find_user(entries_view(self.entries@), user_id)
    }

    fn lookup_id(&self, username: &str, password: &str) -> (r: Option<String>) {
        let ghost ev = entries_view(self.entries@);
        let username_owned = username.to_owned();
        let password_owned = password.to_owned();
        let mut i: usize = 0;
        proof {
            assert(ev.skip(0) =~= ev);
        }
        while i < self.entries.len()
            invariant
                i <= self.entries@.len(),
                ev == entries_view(self.entries@),
                username_owned@ == username@,
                password_owned@ == password@,
                find_id(ev, username@, password@) == find_id(
                    ev.skip(i as int),
                    username@,
                    password@,
                ),
            decreases self.entries@.len() - i,
        {
            proof {
                assert(ev.skip(i as int).first() == ev[i as int]);
                assert(ev.skip(i as int).drop_first() =~= ev.skip(i + 1));
                assert(ev[i as int] == self.entries@[i as int]@);
            }
            let entry = &self.entries[i];
            if entry.username == username_owned && entry.password == password_owned {
                return Some(entry.id.clone());
            }
            i += 1;
        }
        proof {
            assert(ev.skip(ev.len() as int) =~= Seq::<EntryView>::empty());
        }
        None
    }

    fn lookup_user(&self, user_id: &str) -> (r: Option<(String, String)>) {
        let ghost ev = entries_view(self.entries@);
        let id_owned = user_id.to_owned();
        let mut i: usize = 0;
        proof {
            assert(ev.skip(0) =~= ev);
        }
        while i < self.entries.len()
            invariant
                i <= self.entries@.len(),
                ev == entries_view(self.entries@),
                id_owned@ == user_id@,
                find_user(ev, user_id@) == find_user(ev.skip(i as int), user_id@),
            decreases self.entries@.len() - i,
        {
            proof {
                assert(ev.skip(i as int).first() == ev[i as int]);
                assert(ev.skip(i as int).drop_first() =~= ev.skip(i + 1));
                assert(ev[i as int] == self.entries@[i as int]@);
            }
            let entry = &self.entries[i];
            if entry.id == id_owned {
                return Some((entry.username.clone(), entry.password.clone()));
            }
            i += 1;
        }
        proof {
            assert(ev.skip(ev.len() as int) =~= Seq::<EntryView>::empty());
        }
        None
    }
}

} // verus!
