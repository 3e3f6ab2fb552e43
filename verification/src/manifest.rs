//! The per-job manifest: a flat mapping from asset name to the prompt
//! that generated it, serialized as pretty-printed JSON next to the
//! assets of a video job.
//!
//! The mapping is built from the job's task list in input order; when
//! two tasks use the same asset name the later one wins, so the map has
//! exactly one entry per distinct name.  Serialization is done by
//! serde_json, whose map keeps its keys sorted, so the JSON text is a
//! pure function of the entries.

use vstd::prelude::*;

verus! {

/// One asset of a video job: the local file to copy, the name it gets
/// inside the job directory, and the prompt associated with it.
pub struct VideoTask {
    pub path: String,
    pub name: String,
    pub prompt: String,
}

/// The manifest mapping described by a task list: one entry per
/// distinct asset name, holding the prompt of the last task in input
/// order that used that name.
pub open spec fn manifest_of(tasks: Seq<VideoTask>) -> Map<Seq<char>, Seq<char>>
    decreases tasks.len(),
{
    if tasks.len() == 0 {
        Map::empty()
    } else {
        manifest_of(tasks.drop_last()).insert(tasks.last().name@, tasks.last().prompt@)
    }
}

/// A name is in the manifest exactly when some task used it, and it
/// maps to the prompt of the last task in input order that used it.
pub proof fn lemma_manifest_last_wins(tasks: Seq<VideoTask>)
    ensures
        forall|n: Seq<char>|
            #[trigger] manifest_of(tasks).dom().contains(n) <==> exists|i: int|
                0 <= i < tasks.len() && #[trigger] tasks[i].name@ == n,
        forall|i: int|
            0 <= i < tasks.len() && (forall|j: int|
                i < j < tasks.len() ==> #[trigger] tasks[j].name@ != tasks[i].name@)
                ==> manifest_of(tasks)[#[trigger] tasks[i].name@] == tasks[i].prompt@,
    decreases tasks.len(),
{
    if tasks.len() > 0 {
        lemma_manifest_last_wins(tasks.drop_last());
        assert forall|n: Seq<char>| #[trigger] manifest_of(tasks).dom().contains(n) implies exists|i: int|
            0 <= i < tasks.len() && #[trigger] tasks[i].name@ == n by {
            if n == tasks.last().name@ {
                assert(tasks[tasks.len() - 1].name@ == n);
            } else {
                assert(manifest_of(tasks.drop_last()).dom().contains(n));
                let i = choose|i: int|
                    0 <= i < tasks.drop_last().len() && #[trigger] tasks.drop_last()[i].name@ == n;
                assert(tasks[i].name@ == n);
            }
        }
        assert forall|n: Seq<char>|
            (exists|i: int| 0 <= i < tasks.len() && #[trigger] tasks[i].name@ == n) implies
            #[trigger] manifest_of(tasks).dom().contains(n) by {
            let i = choose|i: int| 0 <= i < tasks.len() && #[trigger] tasks[i].name@ == n;
            if i < tasks.len() - 1 {
                assert(tasks.drop_last()[i].name@ == n);
                assert(manifest_of(tasks.drop_last()).dom().contains(n));
            } else {
                assert(manifest_of(tasks).dom().contains(tasks.last().name@));
            }
        }
        assert forall|i: int|
            0 <= i < tasks.len() && (forall|j: int|
                i < j < tasks.len() ==> #[trigger] tasks[j].name@ != tasks[i].name@) implies
            manifest_of(tasks)[#[trigger] tasks[i].name@] == tasks[i].prompt@ by {
            if i == tasks.len() - 1 {
                assert(manifest_of(tasks)[tasks.last().name@] == tasks.last().prompt@);
            } else {
                assert(tasks.drop_last()[i].name@ == tasks[i].name@);
                assert(forall|j: int|
                    i < j < tasks.drop_last().len() ==> #[trigger] tasks.drop_last()[j].name@
                        != tasks.drop_last()[i].name@);
                assert(tasks[i].name@ != tasks.last().name@);
            }
        }
    }
}

#[verifier::external_type_specification]
#[verifier::external_body]
pub struct ExJsonError(serde_json::Error);

/// A manifest under construction: a serde_json object map that holds
/// only string values.  The field is hidden and the only constructors
/// are [`manifest_map_new`] and [`manifest_map_insert`], so every value
/// of this type serializes without failure and the text depends on the
/// entries alone.
#[verifier::external_body]
pub struct ManifestMap {
    map: serde_json::Map<String, serde_json::Value>,
}

/// The entries a [`ManifestMap`] holds, as a mathematical map from key
/// to string value.
pub uninterp spec fn manifest_entries(m: ManifestMap) -> Map<Seq<char>, Seq<char>>;

/// The pretty-printed JSON text of an object with the given string
/// entries.  serde_json's map keeps its keys sorted, so the text
/// depends on the entries alone.
pub uninterp spec fn json_pretty_of(entries: Map<Seq<char>, Seq<char>>) -> Seq<char>;

/// The empty manifest mapping.
pub open spec fn no_entries() -> Map<Seq<char>, Seq<char>> {
    Map::empty()
}

/// Relies on serde_json::Map::new: the new map holds no entries.
#[verifier::external_body]
fn manifest_map_new() -> (m: ManifestMap)
    ensures
        manifest_entries(m) == no_entries(),
{
    ManifestMap { map: serde_json::Map::new() }
}

/// Relies on serde_json::Map::insert: maps the key to the given string
/// value, replacing any entry the key had before.
#[verifier::external_body]
fn manifest_map_insert(m: &mut ManifestMap, key: String, value: String)
    ensures
        manifest_entries(*final(m)) == manifest_entries(*old(m)).insert(key@, value@),
{
    m.map.insert(key, serde_json::Value::String(value));
}

/// Relies on serde_json::to_string_pretty: serializing an object map
/// whose keys and values are all strings cannot fail — errors arise
/// only from non-string map keys or fallible Serialize implementations
/// — and every [`ManifestMap`] is such a map, so the result is Ok and
/// its text is determined by the entries.
#[verifier::external_body]
fn manifest_map_to_pretty(m: &ManifestMap) -> (r: Result<String, serde_json::Error>)
    ensures
        r is Ok,
        r matches Ok(s) ==> s@ == json_pretty_of(manifest_entries(*m)),
{
    serde_json::to_string_pretty(&m.map)
}

/// Serializes the manifest described by `tasks` to pretty-printed JSON:
/// exactly the serialization of the last-wins mapping.
pub fn build_manifest_json(tasks: &Vec<VideoTask>) -> (r: String)
    ensures
        r@ == json_pretty_of(manifest_of(tasks@)),
{
    let ghost tseq = tasks@;
    let mut m = manifest_map_new();
    let mut i: usize = 0;
    while i < tasks.len()
        invariant
            0 <= i <= tseq.len(),
            tasks@ == tseq,
            manifest_entries(m) == manifest_of(tseq.take(i as int)),
        decreases tseq.len() - i,
    {
        let name = tasks[i].name.clone();
        let prompt = tasks[i].prompt.clone();
        manifest_map_insert(&mut m, name, prompt);
        proof {
            let t = tseq.take(i + 1 as int);
            assert(t.drop_last() =~= tseq.take(i as int));
            assert(t.last() == tseq[i as int]);
        }
        i = i + 1;
    }
    proof {
        assert(tseq.take(tseq.len() as int) =~= tseq);
    }
    match manifest_map_to_pretty(&m) {
        Ok(s) => s,
        // unreachable: a manifest map always serializes
        Err(_) => String::new(),
    }
}

} // verus!
