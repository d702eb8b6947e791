use vstd::prelude::*;
use vstd::string::StringExecFns;

verus! {

/// Whether two texts spell the same characters.
pub(crate) fn str_eq(a: &str, b: &str) -> (r: bool)
    ensures
        r == (a@ == b@),
{
    let sa = String::from_str(a);
    let sb = String::from_str(b);
    sa.eq(&sb)
}

/// How a stored entry authenticates at connection time.
#[derive(Clone, Copy, Debug, PartialEq, Eq, Structural)]
pub enum AuthMode {
    /// A password must be present.
    Password,
    /// A key must be present.
    Rsa,
    /// At least one credential must be present; a key is attempted first.
    Both,
}

/// One named host credential record.
///
/// `password` and `rsa_key`, where present, hold the reversibly encoded
/// text form a secret is stored in (see `codec`), never the plaintext.
#[derive(Clone, Debug)]
pub struct Entry {
    pub name: String,
    pub ip: String,
    pub username: String,
    pub password: Option<String>,
    pub rsa_key: Option<String>,
    pub auth_mode: AuthMode,
}

/// The whole credential store: entries looked up by name.
#[derive(Debug)]
pub struct Config {
    pub entries: Vec<Entry>,
}

/// The position of the first entry named `name`, if any.
pub open spec fn find_idx(s: Seq<Entry>, name: Seq<char>) -> Option<int>
    decreases s.len(),
{
    if s.len() == 0 {
        None
    } else if s[0].name@ == name {
        Some(0)
    } else {
        match find_idx(s.drop_first(), name) {
            Some(i) => Some(i + 1),
            None => None,
        }
    }
}

/// The first entry named `name` stands at the index `find_idx` gives, and
/// no earlier entry carries that name.
pub proof fn lemma_find_idx_some(s: Seq<Entry>, name: Seq<char>, i: int)
    requires
        0 <= i < s.len(),
        s[i].name@ == name,
        forall|j: int| 0 <= j < i ==> s[j].name@ != name,
    ensures
        find_idx(s, name) == Some(i),
    decreases i,
{
    if i == 0 {
    } else {
        assert(s.drop_first()[i - 1] == s[i]);
        assert(forall|j: int| 0 <= j < i - 1 ==> #[trigger] s.drop_first()[j].name@ != name);
        lemma_find_idx_some(s.drop_first(), name, i - 1);
    }
}

/// Where no entry carries the name, `find_idx` gives none.
pub proof fn lemma_find_idx_none(s: Seq<Entry>, name: Seq<char>)
    requires
        forall|j: int| 0 <= j < s.len() ==> s[j].name@ != name,
    ensures
        find_idx(s, name) is None,
    decreases s.len(),
{
    if s.len() > 0 {
        assert(forall|j: int| 0 <= j < s.len() - 1 ==> #[trigger] s.drop_first()[j].name@ != name);
        lemma_find_idx_none(s.drop_first(), name);
    }
}

impl Config {
    /// Look up the first entry with the given name.
    pub fn find(&self, name: &str) -> (r: Option<&Entry>)
        ensures
            match r {
                Some(e) => find_idx(self.entries@, name@) matches Some(i) && *e == self.entries@[i],
                None => find_idx(self.entries@, name@) is None,
            },
    {
        let n = self.entries.len();
        let mut k: usize = 0;
        while k < n
            invariant
                n == self.entries@.len(),
                0 <= k <= n,
                forall|j: int| 0 <= j < k ==> #[trigger] self.entries@[j].name@ != name@,
            decreases n - k,
        {
            if str_eq(self.entries[k].name.as_str(), name) {
                proof {
                    lemma_find_idx_some(self.entries@, name@, k as int);
                }
                return Some(&self.entries[k]);
            }
            k += 1;
        }
        proof {
            lemma_find_idx_none(self.entries@, name@);
        }
        None
    }

    /// Look up the first entry with the given name, for updating in place.
    pub fn find_mut(&mut self, name: &str) -> (r: Option<&mut Entry>)
        ensures
            match r {
                Some(e) => {
                    &&& find_idx(old(self).entries@, name@) matches Some(i)
                    &&& *e == old(self).entries@[i]
                    &&& final(self).entries@ == old(self).entries@.update(i, *final(e))
                },
                None => {
                    &&& find_idx(old(self).entries@, name@) is None
                    &&& *final(self) == *old(self)
                },
            },
    {
        let n = self.entries.len();
        let mut k: usize = 0;
        while k < n
            invariant
                *self == *old(self),
                n == self.entries@.len(),
                0 <= k <= n,
                forall|j: int| 0 <= j < k ==> #[trigger] self.entries@[j].name@ != name@,
            decreases n - k,
        {
            if str_eq(self.entries[k].name.as_str(), name) {
                proof {
                    lemma_find_idx_some(self.entries@, name@, k as int);
                }
                return Some(&mut self.entries[k]);
            }
            k += 1;
        }
        proof {
            lemma_find_idx_none(self.entries@, name@);
        }
        None
    }
}

/// Holds the path of the on-disk store file. Loading and saving the file
/// are the caller's work; the library only keeps the agreed location.
#[derive(Debug)]
pub struct ConfigManager {
    path: String,
}

impl View for ConfigManager {
    type V = Seq<char>;

    /// A manager is its store file's location.
    closed spec fn view(&self) -> Seq<char> {
        self.path@
    }
}

impl ConfigManager {
    /// Remember the store file's location.
    pub fn new(path: String) -> (r: ConfigManager)
        ensures
            r@ == path@,
    {
        ConfigManager { path }
    }

    /// The store file's location.
    pub fn path(&self) -> (r: &String)
        ensures
            r@ == self@,
    {
        &self.path
    }
}

} // verus!
