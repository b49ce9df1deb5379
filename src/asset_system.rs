use vstd::prelude::*;

use crate::texture::Texture;

verus! {

/// The texture cached under `path`: the first entry with that path.
pub open spec fn lookup(entries: Seq<(Seq<char>, Texture)>, path: Seq<char>) -> Option<Texture>
    decreases entries.len(),
{
    if entries.len() == 0 {
        None
    } else if entries[0].0 == path {
        Some(entries[0].1)
    } else {
        lookup(entries.drop_first(), path)
    }
}

proof fn lemma_lookup_push(entries: Seq<(Seq<char>, Texture)>, e: (Seq<char>, Texture), path: Seq<char>)
    ensures
        lookup(entries.push(e), path) == if lookup(entries, path) is Some {
            lookup(entries, path)
        } else if e.0 == path {
            Some(e.1)
        } else {
            None
        },
    decreases entries.len(),
{
    if entries.len() > 0 {
        assert(entries.push(e).drop_first() =~= entries.drop_first().push(e));
        assert(entries.push(e)[0] == entries[0]);
        lemma_lookup_push(entries.drop_first(), e, path);
    } else {
        assert(entries.push(e).drop_first() =~= Seq::<(Seq<char>, Texture)>::empty());
        assert(entries.push(e)[0] == e);
        assert(lookup(Seq::<(Seq<char>, Texture)>::empty(), path) is None);
    }
}

/// Textures loaded so far, each under the path it was loaded from, so that
/// every file is loaded once.
pub struct AssetSystem {
    textures: Vec<(String, Texture)>,
}

impl AssetSystem {
    pub closed spec fn entries(&self) -> Seq<(Seq<char>, Texture)> {
        self.textures@.map_values(|e: (String, Texture)| (e.0@, e.1))
    }

    /// The texture cached under `path`, if any.
    pub open spec fn cached(&self, path: Seq<char>) -> Option<Texture> {
        lookup(self.entries(), path)
    }

    /// An empty cache.
    pub fn new() -> (r: AssetSystem)
        ensures
            forall|path: Seq<char>| r.cached(path) is None,
    {
        let r = AssetSystem { textures: Vec::new() };
        assert(r.entries() =~= Seq::<(Seq<char>, Texture)>::empty());
        r
    }

    /// The texture cached under `path`.
    pub fn get_texture(&self, path: &String) -> (r: Option<Texture>)
        ensures
            r == self.cached(path@),
    {
        let n = self.textures.len();
        let mut i: usize = 0;
        assert(self.entries().subrange(0, n as int) =~= self.entries());
        while i < n
            invariant
                n == self.textures@.len(),
                n == self.entries().len(),
                i <= n,
                lookup(self.entries(), path@) == lookup(self.entries().subrange(i as int, n as int), path@),
            decreases n - i,
        {
            let ghost rest = self.entries().subrange(i as int, n as int);
            assert(rest.drop_first() =~= self.entries().subrange(i as int + 1, n as int));
            assert(rest[0] == (self.textures@[i as int].0@, self.textures@[i as int].1));
            if self.textures[i].0 == *path {
                return Some(self.textures[i].1);
            }
            i = i + 1;
        }
        None
    }

    /// Caches `texture` under `path` unless a texture is cached there already,
    /// and returns the texture cached under `path` afterwards.
    pub fn insert_texture(&mut self, path: String, texture: Texture) -> (r: Texture)
        ensures
            old(self).cached(path@) is Some ==> r == old(self).cached(path@).unwrap(),
            old(self).cached(path@) is None ==> r == texture,
            final(self).cached(path@) == Some(r),
            forall|other: Seq<char>|
                other != path@ ==> #[trigger] final(self).cached(other) == old(self).cached(other),
    {
        match self.get_texture(&path) {
            Some(t) => t,
            None => {
                let ghost key = path@;
                self.textures.push((path, texture));
                proof {
                    assert(self.entries() =~= old(self).entries().push((key, texture)));
                    assert forall|other: Seq<char>| #[trigger] lookup(self.entries(), other) == if lookup(old(self).entries(), other) is Some {
                        lookup(old(self).entries(), other)
                    } else if key == other {
                        Some(texture)
                    } else {
                        None
                    } by {
                        lemma_lookup_push(old(self).entries(), (key, texture), other);
                    }
                }
                texture
            },
        }
    }
}

} // verus!
