//! A model of the toolkit's icon theme: the registry that maps icon names to
//! image resources, searched across an ordered list of resource paths. Only
//! the search-path list matters to this library, so the model holds exactly
//! that list.

use vstd::prelude::*;

verus! {

/// An icon theme's ordered list of resource search paths. The view of a
/// theme is the sequence of its paths, each as a sequence of characters.
pub struct IconTheme {
    pub resource_paths: Vec<String>,
}

impl View for IconTheme {
    type V = Seq<Seq<char>>;

    open spec fn view(&self) -> Seq<Seq<char>> {
        self.resource_paths@.map_values(|p: String| p@)
    }
}

impl IconTheme {
    /// A theme with no resource search paths.
    pub fn new() -> (theme: IconTheme)
        ensures
            theme@ == Seq::<Seq<char>>::empty(),
    {
        let theme = IconTheme { resource_paths: Vec::new() };
        proof {
            assert(theme@ =~= Seq::<Seq<char>>::empty());
        }
        theme
    }

    /// Appends one resource search path at the end of the list. Paths are
    /// kept in order and never deduplicated here: whether the toolkit
    /// deduplicates is its own business.
    pub fn add_resource_path(&mut self, path: String)
        ensures
            final(self)@ == old(self)@.push(path@),
    {
        self.resource_paths.push(path);
        proof {
            assert(self@ =~= old(self)@.push(path@));
        }
    }

    /// Whether `path` is one of the resource search paths.
    pub fn has_resource_path(&self, path: &str) -> (present: bool)
        ensures
            present == self@.contains(path@),
    {
        let needle: String = path.to_owned();
        let n = self.resource_paths.len();
        let mut i: usize = 0;
        while i < n
            invariant
                n == self.resource_paths.len(),
                0 <= i <= n,
                needle@ == path@,
                forall|j: int| 0 <= j < i ==> self@[j] != path@,
            decreases n - i,
        {
            if self.resource_paths[i] == needle {
                proof {
                    assert(self@[i as int] == path@);
                }
                return true;
            }
            i += 1;
        }
        proof {
            assert(forall|j: int| 0 <= j < self@.len() ==> self@[j] != path@);
        }
        false
    }

    /// How many resource search paths the theme holds.
    pub fn path_count(&self) -> (count: usize)
        ensures
            count == self@.len(),
    {
        self.resource_paths.len()
    }
}

/// The toolkit context at the time of registration. A default icon theme is
/// available only where a display or session is initialized; `None` models a
/// context without one.
pub struct ToolkitContext {
    pub default_theme: Option<IconTheme>,
}

} // verus!
