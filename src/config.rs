use vstd::prelude::*;
use vstd::string::*;

verus! {

/// A preprocessor definition as seen by the contracts: its name and optional value.
pub type DefineView = (Seq<char>, Option<Seq<char>>);

/// The mathematical content of a `BuildConfiguration`.
pub struct ConfigView {
    pub defines: Seq<DefineView>,
    pub include_dirs: Seq<Seq<char>>,
    pub files: Seq<Seq<char>>,
    pub flags: Seq<Seq<char>>,
    pub output: Seq<char>,
}

/// No two definitions carry the same name.
pub open spec fn names_unique(defs: Seq<DefineView>) -> bool {
    forall|i: int, j: int| 0 <= i < j < defs.len() ==> #[trigger] defs[i].0 != #[trigger] defs[j].0
}

pub open spec fn has_define(defs: Seq<DefineView>, name: Seq<char>) -> bool {
    exists|i: int| 0 <= i < defs.len() && #[trigger] defs[i].0 == name
}

/// Setting a definition: an existing entry of that name takes the new value in place,
/// otherwise the definition is added at the end.
pub open spec fn put_define(
    defs: Seq<DefineView>,
    name: Seq<char>,
    value: Option<Seq<char>>,
) -> Seq<DefineView> {
    if has_define(defs, name) {
        let i = choose|i: int| 0 <= i < defs.len() && #[trigger] defs[i].0 == name;
        defs.update(i, (name, value))
    } else {
        defs.push((name, value))
    }
}

pub open spec fn empty_view() -> ConfigView {
    ConfigView {
        defines: Seq::empty(),
        include_dirs: Seq::empty(),
        files: Seq::empty(),
        flags: Seq::empty(),
        output: Seq::empty(),
    }
}

impl ConfigView {
    pub open spec fn with_define(self, name: Seq<char>, value: Option<Seq<char>>) -> ConfigView {
        ConfigView { defines: put_define(self.defines, name, value), ..self }
    }

    pub open spec fn with_include_dir(self, path: Seq<char>) -> ConfigView {
        ConfigView { include_dirs: self.include_dirs.push(path), ..self }
    }

    pub open spec fn with_file(self, path: Seq<char>) -> ConfigView {
        ConfigView { files: self.files.push(path), ..self }
    }

    pub open spec fn with_flag(self, flag: Seq<char>) -> ConfigView {
        ConfigView { flags: self.flags.push(flag), ..self }
    }
}

/// Putting a definition keeps names unique, defines the name, and keeps every name
/// that was already defined.
pub proof fn lemma_put_define(defs: Seq<DefineView>, name: Seq<char>, value: Option<Seq<char>>)
    requires
        names_unique(defs),
    ensures
        names_unique(put_define(defs, name, value)),
        has_define(put_define(defs, name, value), name),
        forall|n: Seq<char>| has_define(defs, n) ==> has_define(put_define(defs, name, value), n),
{
    let r = put_define(defs, name, value);
    if has_define(defs, name) {
        let i = choose|i: int| 0 <= i < defs.len() && #[trigger] defs[i].0 == name;
        assert(r[i].0 == name);
        assert forall|n: Seq<char>| has_define(defs, n) implies has_define(r, n) by {
            let k = choose|k: int| 0 <= k < defs.len() && #[trigger] defs[k].0 == n;
            assert(r[k].0 == n);
        }
    } else {
        assert(r[defs.len() as int].0 == name);
        assert forall|n: Seq<char>| has_define(defs, n) implies has_define(r, n) by {
            let k = choose|k: int| 0 <= k < defs.len() && #[trigger] defs[k].0 == n;
            assert(r[k].0 == n);
        }
    }
}

/// One preprocessor definition, `-D<name>` or `-D<name>=<value>`.
pub struct Define {
    pub name: String,
    pub value: Option<String>,
}

impl View for Define {
    type V = DefineView;

    open spec fn view(&self) -> DefineView {
        (self.name@, self.value.deep_view())
    }
}

/// What is handed to the cross-compiler: definitions, header search directories, source files
/// (in order), flags, and the name of the produced archive.
pub struct BuildConfiguration {
    defines: Vec<Define>,
    include_dirs: Vec<String>,
    files: Vec<String>,
    flags: Vec<String>,
    output: String,
}

impl View for BuildConfiguration {
    type V = ConfigView;

    closed spec fn view(&self) -> ConfigView {
        ConfigView {
            defines: self.defines@.map_values(|d: Define| d@),
            include_dirs: self.include_dirs@.map_values(|s: String| s@),
            files: self.files@.map_values(|s: String| s@),
            flags: self.flags@.map_values(|s: String| s@),
            output: self.output@,
        }
    }
}

impl BuildConfiguration {
    pub open spec fn wf(&self) -> bool {
        names_unique(self@.defines)
    }

    pub fn new() -> (r: BuildConfiguration)
        ensures
            r.wf(),
            r@ == empty_view(),
    {
        let r = BuildConfiguration {
            defines: Vec::new(),
            include_dirs: Vec::new(),
            files: Vec::new(),
            flags: Vec::new(),
            output: String::new(),
        };
        assert(r@.defines =~= Seq::empty());
        assert(r@.include_dirs =~= Seq::empty());
        assert(r@.files =~= Seq::empty());
        assert(r@.flags =~= Seq::empty());
        r
    }

    /// Sets the definition `name` to `value`; a name is never defined twice.
    pub fn define(&mut self, name: &str, value: Option<&str>)
        requires
            old(self).wf(),
        ensures
            final(self).wf(),
            final(self)@ == old(self)@.with_define(name@, value.deep_view()),
    {
        let ghost pre = self@;
        let key = String::from_str(name);
        let val: Option<String> = match value {
            Some(v) => Some(String::from_str(v)),
            None => None,
        };
        let d = Define { name: key, value: val };
        assert(d@ == (name@, value.deep_view()));
        let n = self.defines.len();
        let mut i: usize = 0;
        while i < n
            invariant
                n == self.defines.len(),
                self@ == pre,
                pre == old(self)@,
                names_unique(pre.defines),
                d@ == (name@, value.deep_view()),
                0 <= i <= n,
                forall|j: int| 0 <= j < i ==> pre.defines[j].0 != name@,
            decreases n - i,
        {
            if self.defines[i].name == d.name {
                assert(pre.defines[i as int].0 == name@);
                assert(has_define(pre.defines, name@));
                self.defines[i] = d;
                proof {
                    lemma_put_define(pre.defines, name@, value.deep_view());
                    assert(self@.defines =~= put_define(pre.defines, name@, value.deep_view()));
                }
                return;
            }
            i = i + 1;
        }
        self.defines.push(d);
        proof {
            lemma_put_define(pre.defines, name@, value.deep_view());
            assert(!has_define(pre.defines, name@));
            assert(self@.defines =~= put_define(pre.defines, name@, value.deep_view()));
        }
    }

    pub fn include_dir(&mut self, path: &str)
        requires
            old(self).wf(),
        ensures
            final(self).wf(),
            final(self)@ == old(self)@.with_include_dir(path@),
    {
        self.include_dirs.push(String::from_str(path));
        assert(self@.include_dirs =~= old(self)@.include_dirs.push(path@));
        assert(self@.defines =~= old(self)@.defines);
    }

    pub fn file(&mut self, path: &str)
        requires
            old(self).wf(),
        ensures
            final(self).wf(),
            final(self)@ == old(self)@.with_file(path@),
    {
        self.files.push(String::from_str(path));
        assert(self@.files =~= old(self)@.files.push(path@));
        assert(self@.defines =~= old(self)@.defines);
    }

    pub fn flag(&mut self, flag: String)
        requires
            old(self).wf(),
        ensures
            final(self).wf(),
            final(self)@ == old(self)@.with_flag(flag@),
    {
        let ghost f = flag@;
        self.flags.push(flag);
        assert(self@.flags =~= old(self)@.flags.push(f));
        assert(self@.defines =~= old(self)@.defines);
    }

    pub fn set_output(&mut self, name: &str)
        requires
            old(self).wf(),
        ensures
            final(self).wf(),
            final(self)@ == (ConfigView { output: name@, ..old(self)@ }),
    {
        self.output = String::from_str(name);
        assert(self@.defines =~= old(self)@.defines);
    }
    pub fn defines(&self) -> (r: &Vec<Define>)
        ensures
            r@.map_values(|d: Define| d@) == self@.defines,
    {
        &self.defines
    }

    pub fn include_dirs(&self) -> (r: &Vec<String>)
        ensures
            r@.map_values(|s: String| s@) == self@.include_dirs,
    {
        &self.include_dirs
    }

    pub fn files(&self) -> (r: &Vec<String>)
        ensures
            r@.map_values(|s: String| s@) == self@.files,
    {
        &self.files
    }

    pub fn flags(&self) -> (r: &Vec<String>)
        ensures
            r@.map_values(|s: String| s@) == self@.flags,
    {
        &self.flags
    }

    pub fn output(&self) -> (r: &str)
        ensures
            r@ == self@.output,
    {
        self.output.as_str()
    }
}

} // verus!
