use vstd::prelude::*;
use vstd::string::*;

verus! {

/// The prefix placed in front of a source object's name to name its thumbnail.
pub open spec fn derived_prefix() -> Seq<char> {
    seq!['r', 'e', 's', 'i', 'z', 'e', 'd', '_']
}

/// The name under which the thumbnail of `name` is stored.
pub open spec fn derived(name: Seq<char>) -> Seq<char> {
    derived_prefix() + name
}

/// The content type tag attached to every stored object.
pub open spec fn image_content_type() -> Seq<char> {
    seq!['i', 'm', 'a', 'g', 'e', '/', 'j', 'p', 'e', 'g']
}

/// The announcement that an object has been stored and awaits processing.
#[derive(Debug)]
pub struct Job {
    /// Name of the stored source object.
    pub filename: String,
    /// Container (bucket) that holds the source object.
    pub image_container: String,
}

/// The mathematical value of a job: its two names.
pub struct JobView {
    pub filename: Seq<char>,
    pub image_container: Seq<char>,
}

impl View for Job {
    type V = JobView;

    open spec fn view(&self) -> JobView {
        JobView { filename: self.filename@, image_container: self.image_container@ }
    }
}

impl Job {
    /// A job is well formed when it names an object.
    pub open spec fn wf(&self) -> bool {
        self.filename@.len() > 0
    }

    /// Builds the job that announces object `filename` in `image_container`.
    pub fn new(filename: String, image_container: String) -> (r: Job)
        ensures
            r.filename@ == filename@,
            r.image_container@ == image_container@,
    {
        Job { filename, image_container }
    }

    /// A copy of this job with the same two names.
    pub fn duplicate(&self) -> (r: Job)
        ensures
            r@ == self@,
    {
        Job { filename: self.filename.clone(), image_container: self.image_container.clone() }
    }

    /// Field-by-field equality of two jobs.
    pub fn same_as(&self, other: &Job) -> (r: bool)
        ensures
            r == (self@ == other@),
    {
        let a = self.filename == other.filename;
        let b = self.image_container == other.image_container;
        a && b
    }

    /// The name under which this job's thumbnail is stored.
    pub fn derived_filename(&self) -> (r: String)
        ensures
            r@ == derived(self.filename@),
    {
        derived_name(self.filename.as_str())
    }
}

/// The name of the thumbnail of the object `name`: the name behind a fixed prefix.
pub fn derived_name(name: &str) -> (r: String)
    ensures
        r@ == derived(name@),
{
    let prefix = String::from_str("resized_");
    proof {
        reveal_strlit("resized_");
    }
    let r = prefix.concat(name);
    assert(r@ =~= derived(name@));
    r
}

/// The content type tag attached to every stored object.
pub fn content_type() -> (r: String)
    ensures
        r@ == image_content_type(),
{
    proof {
        reveal_strlit("image/jpeg");
    }
    String::from_str("image/jpeg")
}

/// Applying the naming rule once more never gives back the first derived name:
/// a thumbnail's name is always strictly longer than its source's.
pub proof fn lemma_derived_is_longer(name: Seq<char>)
    ensures
        derived(name).len() == name.len() + 8,
        derived(derived(name)) != derived(name),
{
    assert(derived(derived(name)).len() == derived(name).len() + 8);
}

/// The naming rule is injective: distinct sources get distinct thumbnail names,
/// and the source name is recovered by dropping the prefix.
pub proof fn lemma_derived_injective(a: Seq<char>, b: Seq<char>)
    ensures
        derived(a).subrange(8, derived(a).len() as int) == a,
        derived(a) == derived(b) ==> a == b,
{
    assert(derived(a).subrange(8, derived(a).len() as int) =~= a);
    assert(derived(b).subrange(8, derived(b).len() as int) =~= b);
}

} // verus!
