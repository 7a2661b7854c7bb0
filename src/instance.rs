//! Game instances: isolated working directories and the index that lists
//! them. Files are read and written by the caller; these operations compute
//! paths and the next content of the index.

use vstd::prelude::*;
use crate::text::{contains_seq, contains_str, join, join_path, str_eq};

verus! {

/// A game instance with its own directory and optional setting overrides.
#[derive(Debug, Clone)]
pub struct Instance {
    pub id: String,
    pub name: String,
    pub version_id: String,
    pub icon: Option<String>,
    pub created_at: i64,
    pub last_played: Option<i64>,
    pub java_path: Option<String>,
    pub min_memory: Option<u32>,
    pub max_memory: Option<u32>,
    pub width: Option<u32>,
    pub height: Option<u32>,
    pub jvm_args: Option<String>,
}

/// Reference to an instance, as kept in the index.
#[derive(Debug, Clone)]
pub struct InstanceRef {
    pub id: String,
    pub name: String,
    pub version_id: String,
}

/// The index of all instances and the active one.
#[derive(Debug, Clone)]
pub struct InstanceIndex {
    pub instances: Vec<InstanceRef>,
    pub active_instance_id: Option<String>,
}

fn copy_opt(o: &Option<String>) -> (r: Option<String>)
    ensures
        r == *o,
{
    match o {
        Some(s) => Some(s.clone()),
        None => None,
    }
}

impl Instance {
    /// A fresh instance with identity `id`, created at `created_at`, with
    /// no overrides.
    pub fn new(id: String, name: String, version_id: String, created_at: i64) -> (r: Self)
        ensures
            r.id == id,
            r.name == name,
            r.version_id == version_id,
            r.created_at == created_at,
            r.icon.is_none() && r.last_played.is_none() && r.java_path.is_none(),
            r.min_memory.is_none() && r.max_memory.is_none() && r.width.is_none(),
            r.height.is_none() && r.jvm_args.is_none(),
    {
        Instance {
            id,
            name,
            version_id,
            icon: None,
            created_at,
            last_played: None,
            java_path: None,
            min_memory: None,
            max_memory: None,
            width: None,
            height: None,
            jvm_args: None,
        }
    }
}

impl InstanceRef {
    /// The index entry of an instance.
    pub fn from_instance(instance: &Instance) -> (r: Self)
        ensures
            r.id == instance.id,
            r.name == instance.name,
            r.version_id == instance.version_id,
    {
        InstanceRef {
            id: instance.id.clone(),
            name: instance.name.clone(),
            version_id: instance.version_id.clone(),
        }
    }
}

impl InstanceIndex {
    /// An index with no instance.
    pub fn new() -> (r: Self)
        ensures
            r.instances@.len() == 0,
            r.active_instance_id.is_none(),
    {
        InstanceIndex { instances: Vec::new(), active_instance_id: None }
    }
}

/// Whether a character may appear in an instance id: alphanumeric or `-`.
pub uninterp spec fn alphanumeric(c: char) -> bool;

/// Relies on `char::is_alphanumeric` (alphabetic or numeric): among ASCII
/// characters exactly the letters and digits qualify.
#[verifier::external_body]
fn char_is_alphanumeric(c: char) -> (r: bool)
    ensures
        r == alphanumeric(c),
        c <= '\u{7f}' ==> (r <==> (('a' <= c <= 'z') || ('A' <= c <= 'Z') || ('0' <= c <= '9'))),
{
    c.is_alphanumeric()
}

/// An ASCII character allowed in an id: a letter, a digit or `-`.
pub open spec fn id_ascii_ok(c: char) -> bool {
    ('a' <= c <= 'z') || ('A' <= c <= 'Z') || ('0' <= c <= '9') || c == '-'
}

/// Why an instance id is rejected, if it is.
pub open spec fn id_problem(id: Seq<char>) -> Option<Seq<char>> {
    if id.len() == 0 {
        Some("Instance ID cannot be empty"@)
    } else if !(forall|i: int| 0 <= i < id.len() ==> alphanumeric(#[trigger] id[i]) || id[i] == '-') {
        Some("Instance ID contains invalid characters"@)
    } else if contains_seq(id, ".."@) {
        Some("Instance ID contains path traversal attempt"@)
    } else {
        None
    }
}

/// Accepts only non-empty ids of alphanumeric characters and `-`, so that
/// an id never leaves the instances directory.
pub fn validate_instance_id(instance_id: &str) -> (r: Result<(), String>)
    ensures
        r is Ok <==> id_problem(instance_id@).is_none(),
        r is Err ==> id_problem(instance_id@) == Some(r->Err_0@),
        r is Ok ==> forall|i: int|
            0 <= i < instance_id@.len() && instance_id@[i] <= '\u{7f}' ==> id_ascii_ok(
                #[trigger] instance_id@[i],
            ),
{
    let n = instance_id.unicode_len();
    if n == 0 {
        return Err(String::from_str("Instance ID cannot be empty"));
    }
    let mut i: usize = 0;
    while i < n
        invariant
            n == instance_id@.len(),
            i <= n,
            forall|k: int| 0 <= k < i ==> alphanumeric(#[trigger] instance_id@[k]) || instance_id@[k] == '-',
            forall|k: int|
                0 <= k < i && instance_id@[k] <= '\u{7f}' ==> id_ascii_ok(#[trigger] instance_id@[k]),
        decreases n - i,
    {
        let c = instance_id.get_char(i);
        if !(char_is_alphanumeric(c) || c == '-') {
            return Err(String::from_str("Instance ID contains invalid characters"));
        }
        i = i + 1;
    }
    if contains_str(instance_id, "..") {
        return Err(String::from_str("Instance ID contains path traversal attempt"));
    }
    Ok(())
}

/// Index of the first entry whose id is `id`, or -1.
pub open spec fn first_ref(refs: Seq<InstanceRef>, id: Seq<char>) -> int
    decreases refs.len(),
{
    if refs.len() == 0 {
        -1
    } else if first_ref(refs.drop_last(), id) >= 0 {
        first_ref(refs.drop_last(), id)
    } else if refs.last().id@ == id {
        refs.len() - 1
    } else {
        -1
    }
}

/// `first_ref` is -1 or the position of the first entry with that id.
pub proof fn lemma_first_ref(refs: Seq<InstanceRef>, id: Seq<char>)
    ensures
        -1 <= first_ref(refs, id) < refs.len(),
        first_ref(refs, id) >= 0 ==> refs[first_ref(refs, id)].id@ == id,
        first_ref(refs, id) >= 0 ==> forall|k: int| 0 <= k < first_ref(refs, id) ==> refs[k].id@ != id,
        first_ref(refs, id) == -1 ==> forall|k: int| 0 <= k < refs.len() ==> refs[k].id@ != id,
    decreases refs.len(),
{
    if refs.len() > 0 {
        lemma_first_ref(refs.drop_last(), id);
        assert forall|k: int| 0 <= k < refs.len() - 1 implies refs[k] == refs.drop_last()[k] by {}
    }
}

fn find_ref(refs: &Vec<InstanceRef>, id: &str) -> (r: Option<usize>)
    ensures
        match r {
            None => first_ref(refs@, id@) == -1,
            Some(i) => first_ref(refs@, id@) == i as int,
        },
{
    let mut i: usize = 0;
    while i < refs.len()
        invariant
            i <= refs@.len(),
            forall|k: int| 0 <= k < i ==> refs@[k].id@ != id@,
        decreases refs@.len() - i,
    {
        if str_eq(refs[i].id.as_str(), id) {
            proof {
                lemma_first_ref(refs@, id@);
            }
            return Some(i);
        }
        i = i + 1;
    }
    proof {
        lemma_first_ref(refs@, id@);
    }
    None
}

/// `refs` without the entries whose id is `id`, order kept.
pub open spec fn without_ref(refs: Seq<InstanceRef>, id: Seq<char>) -> Seq<InstanceRef>
    decreases refs.len(),
{
    if refs.len() == 0 {
        Seq::empty()
    } else if refs.last().id@ == id {
        without_ref(refs.drop_last(), id)
    } else {
        without_ref(refs.drop_last(), id).push(refs.last())
    }
}

fn copy_ref(r: &InstanceRef) -> (c: InstanceRef)
    ensures
        c == *r,
{
    InstanceRef { id: r.id.clone(), name: r.name.clone(), version_id: r.version_id.clone() }
}

/// Where instances and their index live.
pub struct InstanceManager {
    app_data_dir: String,
}

impl InstanceManager {
    /// The application data directory.
    pub closed spec fn spec_dir(&self) -> Seq<char> {
        self.app_data_dir@
    }

    pub fn new(app_data_dir: &str) -> (r: Self)
        ensures
            r.spec_dir() == app_data_dir@,
    {
        InstanceManager { app_data_dir: String::from_str(app_data_dir) }
    }

    /// The directory that holds one directory per instance.
    pub fn instances_dir(&self) -> (r: String)
        ensures
            r@ == join_path(self.spec_dir(), "instances"@),
    {
        join(self.app_data_dir.as_str(), "instances")
    }

    /// The index file.
    pub fn index_path(&self) -> (r: String)
        ensures
            r@ == join_path(self.spec_dir(), "instances.json"@),
    {
        join(self.app_data_dir.as_str(), "instances.json")
    }

    /// The directory of instance `instance_id`, once the id is validated.
    pub fn instance_dir(&self, instance_id: &str) -> (r: Result<String, String>)
        ensures
            r is Ok <==> id_problem(instance_id@).is_none(),
            r is Ok ==> r->Ok_0@ == join_path(join_path(self.spec_dir(), "instances"@), instance_id@),
            r is Ok ==> forall|i: int|
                0 <= i < instance_id@.len() ==> instance_id@[i] != '.' && instance_id@[i] != '/',
            r is Err ==> id_problem(instance_id@) == Some(r->Err_0@),
    {
        validate_instance_id(instance_id)?;
        let dir = self.instances_dir();
        Ok(join(dir.as_str(), instance_id))
    }

    /// Adds a new instance to the index; the first one becomes active.
    pub fn register_instance(&self, index: &mut InstanceIndex, instance: &Instance)
        ensures
            final(index).instances@.len() == old(index).instances@.len() + 1,
            final(index).instances@.drop_last() == old(index).instances@,
            final(index).instances@.last().id == instance.id,
            final(index).instances@.last().name == instance.name,
            final(index).instances@.last().version_id == instance.version_id,
            old(index).active_instance_id.is_none() ==> final(index).active_instance_id == Some(
                instance.id,
            ),
            old(index).active_instance_id.is_some() ==> final(index).active_instance_id == old(
                index,
            ).active_instance_id,
    {
        index.instances.push(InstanceRef::from_instance(instance));
        if index.active_instance_id.is_none() {
            index.active_instance_id = Some(instance.id.clone());
        }
    }

    /// Removes instance `instance_id` from the index; when it was active, the
    /// first remaining one (if any) becomes active.
    pub fn delete_instance(&self, index: &mut InstanceIndex, instance_id: &str)
        ensures
            final(index).instances@ == without_ref(old(index).instances@, instance_id@),
            (old(index).active_instance_id.is_some() && old(index).active_instance_id.unwrap()@
                == instance_id@) ==> if final(index).instances@.len() == 0 {
                final(index).active_instance_id.is_none()
            } else {
                final(index).active_instance_id == Some(final(index).instances@[0].id)
            },
            !(old(index).active_instance_id.is_some() && old(index).active_instance_id.unwrap()@
                == instance_id@) ==> final(index).active_instance_id == old(index).active_instance_id,
    {
        let mut kept: Vec<InstanceRef> = Vec::new();
        let mut i: usize = 0;
        let ghost refs = index.instances@;
        assert(refs.subrange(0, 0) == Seq::<InstanceRef>::empty());
        while i < index.instances.len()
            invariant
                refs == index.instances@,
                i <= refs.len(),
                kept@ == without_ref(refs.subrange(0, i as int), instance_id@),
            decreases refs.len() - i,
        {
            assert(refs.subrange(0, i + 1).drop_last() == refs.subrange(0, i as int));
            if !str_eq(index.instances[i].id.as_str(), instance_id) {
                kept.push(copy_ref(&index.instances[i]));
            }
            i = i + 1;
        }
        assert(refs.subrange(0, refs.len() as int) == refs);
        index.instances = kept;
        let was_active = match &index.active_instance_id {
            Some(a) => str_eq(a.as_str(), instance_id),
            None => false,
        };
        if was_active {
            index.active_instance_id = if index.instances.len() > 0 {
                Some(index.instances[0].id.clone())
            } else {
                None
            };
        }
    }

    /// Records a changed name or version of an existing instance in its
    /// index entry (the first with its id); an unknown instance is an error
    /// and leaves the index unchanged.
    pub fn update_instance(&self, index: &mut InstanceIndex, instance: &Instance) -> (r: Result<(), String>)
        ensures
            r is Err <==> first_ref(old(index).instances@, instance.id@) == -1,
            r is Err ==> *final(index) == *old(index),
            r is Err ==> r->Err_0@ == "Instance "@ + instance.id@ + " not found"@,
            r is Ok ==> ({
                let k = first_ref(old(index).instances@, instance.id@);
                &&& final(index).instances@.len() == old(index).instances@.len()
                &&& final(index).instances@[k] == (InstanceRef {
                    id: old(index).instances@[k].id,
                    name: instance.name,
                    version_id: instance.version_id,
                })
                &&& forall|j: int|
                    0 <= j < old(index).instances@.len() && j != k ==> final(index).instances@[j] == old(
                        index,
                    ).instances@[j]
                &&& final(index).active_instance_id == old(index).active_instance_id
            }),
    {
        proof {
            lemma_first_ref(index.instances@, instance.id@);
        }
        match find_ref(&index.instances, instance.id.as_str()) {
            None => {
                let mut msg = String::from_str("Instance ");
                msg.append(instance.id.as_str());
                msg.append(" not found");
                Err(msg)
            },
            Some(k) => {
                let old_id = index.instances[k].id.clone();
                let entry = InstanceRef {
                    id: old_id,
                    name: instance.name.clone(),
                    version_id: instance.version_id.clone(),
                };
                index.instances.set(k, entry);
                Ok(())
            },
        }
    }

    /// A copy of `source` under a new identity and name, keeping its game
    /// version and setting overrides.
    pub fn duplicate_instance(&self, source: &Instance, new_id: String, new_name: String, now: i64) -> (r:
        Instance)
        ensures
            r.id == new_id,
            r.name == new_name,
            r.version_id == source.version_id,
            r.created_at == now,
            r.java_path == source.java_path,
            r.min_memory == source.min_memory,
            r.max_memory == source.max_memory,
            r.width == source.width,
            r.height == source.height,
            r.jvm_args == source.jvm_args,
            r.icon.is_none() && r.last_played.is_none(),
    {
        let mut copy = Instance::new(new_id, new_name, source.version_id.clone(), now);
        copy.java_path = copy_opt(&source.java_path);
        copy.min_memory = source.min_memory;
        copy.max_memory = source.max_memory;
        copy.width = source.width;
        copy.height = source.height;
        copy.jvm_args = copy_opt(&source.jvm_args);
        copy
    }

    /// Records that the instance was played at `now`.
    pub fn update_last_played(&self, instance: &mut Instance, now: i64)
        ensures
            final(instance).last_played == Some(now),
            final(instance).id == old(instance).id,
            final(instance).name == old(instance).name,
            final(instance).version_id == old(instance).version_id,
    {
        instance.last_played = Some(now);
    }

    /// Makes `instance_id` active (or clears the choice); an id the index
    /// does not list is an error and leaves the index unchanged.
    pub fn set_active_instance(&self, index: &mut InstanceIndex, instance_id: Option<String>) -> (r:
        Result<(), String>)
        ensures
            final(index).instances == old(index).instances,
            instance_id.is_none() ==> r is Ok && final(index).active_instance_id.is_none(),
            instance_id.is_some() ==> (r is Ok <==> first_ref(old(index).instances@, instance_id.unwrap()@)
                >= 0),
            r is Ok ==> final(index).active_instance_id == instance_id,
            r is Err ==> final(index).active_instance_id == old(index).active_instance_id,
            r is Err ==> instance_id.is_some() && r->Err_0@ == "Instance "@ + instance_id.unwrap()@
                + " not found"@,
    {
        if let Some(id) = &instance_id {
            if find_ref(&index.instances, id.as_str()).is_none() {
                let mut msg = String::from_str("Instance ");
                msg.append(id.as_str());
                msg.append(" not found");
                return Err(msg);
            }
        }
        index.active_instance_id = instance_id;
        Ok(())
    }

    /// The active instance, if any.
    pub fn get_active_instance_id(&self, index: &InstanceIndex) -> (r: Option<String>)
        ensures
            r == index.active_instance_id,
    {
        copy_opt(&index.active_instance_id)
    }
}

} // verus!
