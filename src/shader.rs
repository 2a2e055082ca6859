use vstd::prelude::*;

verus! {

/// The map that a list of `(name, location)` entries stands for; a later entry
/// for a name wins over an earlier one.
pub open spec fn map_of(s: Seq<(Seq<char>, i32)>) -> Map<Seq<char>, i32>
    decreases s.len(),
{
    if s.len() == 0 {
        Map::empty()
    } else {
        map_of(s.drop_last()).insert(s.last().0, s.last().1)
    }
}

/// The location that `m` holds for `name`, or what a query reported: a cached
/// location wins, and a query is kept only when it names a real location.
pub open spec fn resolved(m: Map<Seq<char>, i32>, name: Seq<char>, queried: i32) -> i32 {
    if m.contains_key(name) {
        m[name]
    } else if queried > -1 {
        queried
    } else {
        -1i32
    }
}

/// The cache after a lookup of `name` that a query answered with `queried`.
pub open spec fn after_lookup(m: Map<Seq<char>, i32>, name: Seq<char>, queried: i32) -> Map<
    Seq<char>,
    i32,
> {
    if !m.contains_key(name) && queried > -1 {
        m.insert(name, queried)
    } else {
        m
    }
}

/// A handle to a uniform variable of a linked program.
#[derive(Debug, Clone, Copy, PartialEq, Eq, Structural)]
pub struct Uniform {
    pub loc: i32,
}

/// Locations that a program reported, by name.
struct LocationCache {
    entries: Vec<(String, i32)>,
}

impl View for LocationCache {
    type V = Map<Seq<char>, i32>;

    closed spec fn view(&self) -> Self::V {
        map_of(self.entries@.map_values(|e: (String, i32)| (e.0@, e.1)))
    }
}

impl LocationCache {
    #[verifier::type_invariant]
    spec fn only_real_locations(self) -> bool {
        forall|k: Seq<char>| #[trigger] self@.contains_key(k) ==> self@[k] > -1
    }

    fn new() -> (r: LocationCache)
        ensures
            r@ == Map::<Seq<char>, i32>::empty(),
    {
        let r = LocationCache { entries: Vec::new() };
        assert(r.entries@.map_values(|e: (String, i32)| (e.0@, e.1)) =~= Seq::empty());
        r
    }

    fn lookup(&self, name: &str) -> (r: Option<i32>)
        ensures
            r == (if self@.contains_key(name@) {
                Some(self@[name@])
            } else {
                None::<i32>
            }),
            r matches Some(l) ==> l > -1,
    {
        proof {
            use_type_invariant(self);
        }
        let ghost s = self.entries@.map_values(|e: (String, i32)| (e.0@, e.1));
        let key = name.to_owned();
        let mut i: usize = self.entries.len();
        assert(s.take(i as int) =~= s);
        while i > 0
            invariant
                0 <= i <= self.entries.len(),
                s == self.entries@.map_values(|e: (String, i32)| (e.0@, e.1)),
                key@ == name@,
                self@ == map_of(s),
                forall|k: Seq<char>| #[trigger] map_of(s).contains_key(k) ==> map_of(s)[k] > -1,
                map_of(s).contains_key(key@) == map_of(s.take(i as int)).contains_key(key@),
                map_of(s).contains_key(key@) ==> map_of(s)[key@] == map_of(
                    s.take(i as int),
                )[key@],
            decreases i,
        {
            assert(s.take(i as int).drop_last() =~= s.take(i - 1));
            if self.entries[i - 1].0 == key {
                return Some(self.entries[i - 1].1);
            }
            i -= 1;
        }
        assert(s.take(0) =~= Seq::<(Seq<char>, i32)>::empty());
        None
    }

    /// The cached location of `name`, else `queried`, which is kept when it
    /// names a real location.
    fn resolve(&mut self, name: &str, queried: i32) -> (r: i32)
        ensures
            r == resolved(old(self)@, name@, queried),
            final(self)@ == after_lookup(old(self)@, name@, queried),
    {
        match self.lookup(name) {
            Some(l) => l,
            None => {
                if queried > -1 {
                    proof {
                        use_type_invariant(&*self);
                    }
                    let ghost before = self.entries@.map_values(|e: (String, i32)| (e.0@, e.1));
                    let mut entries: Vec<(String, i32)> = Vec::new();
                    core::mem::swap(&mut entries, &mut self.entries);
                    entries.push((name.to_owned(), queried));
                    proof {
                        let after = entries@.map_values(|e: (String, i32)| (e.0@, e.1));
                        assert(after.drop_last() =~= before);
                    }
                    self.entries = entries;
                    queried
                } else {
                    -1
                }
            },
        }
    }
}

/// A linked program with the locations of its uniforms and attributes, each
/// queried once and then kept.
pub struct Shader {
    program: u32,
    uniforms: LocationCache,
    attribs: LocationCache,
}

impl Shader {
    pub closed spec fn program_id(&self) -> u32 {
        self.program
    }

    /// Uniform locations known so far, by name.
    pub closed spec fn uniform_locations(&self) -> Map<Seq<char>, i32> {
        self.uniforms@
    }

    /// Attribute locations known so far, by name.
    pub closed spec fn attrib_locations(&self) -> Map<Seq<char>, i32> {
        self.attribs@
    }

    /// A shader for the linked program `program`, with nothing cached yet.
    pub fn from_program(program: u32) -> (r: Shader)
        ensures
            r.program_id() == program,
            r.uniform_locations() == Map::<Seq<char>, i32>::empty(),
            r.attrib_locations() == Map::<Seq<char>, i32>::empty(),
    {
        Shader { program, uniforms: LocationCache::new(), attribs: LocationCache::new() }
    }

    pub fn program(&self) -> (r: u32)
        ensures
            r == self.program_id(),
    {
        self.program
    }

    /// The cached location of the uniform `name`, if there is one.
    pub fn cached_uniform_location(&self, name: &str) -> (r: Option<i32>)
        ensures
            r == (if self.uniform_locations().contains_key(name@) {
                Some(self.uniform_locations()[name@])
            } else {
                None::<i32>
            }),
    {
        self.uniforms.lookup(name)
    }

    /// The cached location of the attribute `name`, if there is one.
    pub fn cached_attrib_location(&self, name: &str) -> (r: Option<i32>)
        ensures
            r == (if self.attrib_locations().contains_key(name@) {
                Some(self.attrib_locations()[name@])
            } else {
                None::<i32>
            }),
    {
        self.attribs.lookup(name)
    }

    /// The location of the uniform `name`: the cached one, else `queried`,
    /// what the program reports for that name. A real location (above -1) is
    /// cached; otherwise the result is -1.
    pub fn get_uniform_location(&mut self, name: &str, queried: i32) -> (r: i32)
        ensures
            r == resolved(old(self).uniform_locations(), name@, queried),
            final(self).uniform_locations() == after_lookup(
                old(self).uniform_locations(),
                name@,
                queried,
            ),
            final(self).attrib_locations() == old(self).attrib_locations(),
            final(self).program_id() == old(self).program_id(),
    {
        self.uniforms.resolve(name, queried)
    }

    /// The location of the attribute `name`: the cached one, else `queried`,
    /// what the program reports for that name. A real location (above -1) is
    /// cached; otherwise the result is -1.
    pub fn get_attrib_location(&mut self, name: &str, queried: i32) -> (r: i32)
        ensures
            r == resolved(old(self).attrib_locations(), name@, queried),
            final(self).attrib_locations() == after_lookup(
                old(self).attrib_locations(),
                name@,
                queried,
            ),
            final(self).uniform_locations() == old(self).uniform_locations(),
            final(self).program_id() == old(self).program_id(),
    {
        self.attribs.resolve(name, queried)
    }

    /// The uniform `uniform_name`, found as `get_uniform_location` finds it;
    /// `None` when the program has no such uniform.
    pub fn get(&mut self, uniform_name: &str, queried: i32) -> (r: Option<Uniform>)
        ensures
            old(self).uniform_locations().contains_key(uniform_name@) ==> r == Some(
                (Uniform { loc: old(self).uniform_locations()[uniform_name@] }),
            ),
            !old(self).uniform_locations().contains_key(uniform_name@) ==> r == (if queried
                > -1 {
                Some((Uniform { loc: queried }))
            } else {
                None::<Uniform>
            }),
            final(self).uniform_locations() == after_lookup(
                old(self).uniform_locations(),
                uniform_name@,
                queried,
            ),
            final(self).attrib_locations() == old(self).attrib_locations(),
            final(self).program_id() == old(self).program_id(),
    {
        proof {
            use_type_invariant(&self.uniforms);
        }
        let loc = self.get_uniform_location(uniform_name, queried);
        if loc == -1 {
            return None;
        }
        Some(Uniform { loc })
    }
}

} // verus!
