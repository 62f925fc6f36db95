//! Weights, and the weights of calls.
use vstd::prelude::*;
use vstd::string::StringExecFns;

verus! {

/// How much of each resource something takes.
#[derive(Clone, Copy, PartialEq, Eq, Structural, Debug)]
pub struct Weight {
    /// The time that it takes.
    pub ref_time: u64,
    /// The size of the proof that it takes.
    pub proof_size: u64,
}

impl Weight {
    /// A weight with the given components.
    #[verifier::allow_in_spec]
    pub fn from_parts(ref_time: u64, proof_size: u64) -> Weight
        returns
            (Weight { ref_time, proof_size }),
    {
        Weight { ref_time, proof_size }
    }

    /// Whether no component is greater than that of the other weight.
    #[verifier::allow_in_spec]
    pub fn all_lte(self, other: Weight) -> bool
        returns
            self.ref_time <= other.ref_time && self.proof_size <= other.proof_size,
    {
        self.ref_time <= other.ref_time && self.proof_size <= other.proof_size
    }
}

/// What can stand for a weight.
pub trait IntoWeight: Sized {
    /// The weight that it stands for.
    spec fn weight(self) -> Weight;

    /// The weight that it stands for.
    fn into_weight(self) -> (weight: Weight)
        ensures
            weight == self.weight(),
    ;
}

impl IntoWeight for u64 {
    /// A number stands for the weight with all components equal to it.
    open spec fn weight(self) -> Weight {
        Weight { ref_time: self, proof_size: self }
    }

    fn into_weight(self) -> (weight: Weight) {
        Weight::from_parts(self, self)
    }
}

/// Weights of calls that can be set. A call whose weight was not set weighs nothing.
pub struct MockedWeightInfo {
    weights: Vec<(String, Weight)>,
}

/// The weights by the names of the calls.
pub open spec fn weights_by_name(weights: Seq<(String, Weight)>) -> Map<Seq<char>, Weight>
    decreases weights.len(),
{
    if weights.len() == 0 {
        Map::empty()
    } else {
        weights_by_name(weights.drop_last()).insert(weights.last().0@, weights.last().1)
    }
}

impl View for MockedWeightInfo {
    type V = Map<Seq<char>, Weight>;

    closed spec fn view(&self) -> Map<Seq<char>, Weight> {
        weights_by_name(self.weights@)
    }
}

/// The weight of a call.
pub open spec fn weight_of(weights: Map<Seq<char>, Weight>, call_name: Seq<char>) -> Weight {
    if weights.contains_key(call_name) {
        weights[call_name]
    } else {
        Weight { ref_time: 0, proof_size: 0 }
    }
}

impl MockedWeightInfo {
    /// No weight is set.
    pub fn new() -> (info: MockedWeightInfo)
        ensures
            info@ == Map::<Seq<char>, Weight>::empty(),
    {
        MockedWeightInfo { weights: Vec::new() }
    }

    /// Sets the weight of a call.
    pub fn set_weight(&mut self, call_name: &str, weight: Weight)
        ensures
            final(self)@ == old(self)@.insert(call_name@, weight),
    {
        let name = String::from_str(call_name);
        self.weights.push((name, weight));
        assert(self.weights@.drop_last() =~= old(self).weights@);
    }

    /// The weight of a call.
    fn get(&self, call_name: &str) -> (weight: Weight)
        ensures
            weight == weight_of(self@, call_name@),
    {
        let name = String::from_str(call_name);
        let mut i: usize = self.weights.len();
        assert(self.weights@.take(i as int) =~= self.weights@);
        while i > 0
            invariant
                i <= self.weights@.len(),
                name@ == call_name@,
                weight_of(self@, call_name@) == weight_of(
                    weights_by_name(self.weights@.take(i as int)),
                    call_name@,
                ),
            decreases i,
        {
            i = i - 1;
            let ghost rest = self.weights@.take(i + 1);
            assert(rest.drop_last() =~= self.weights@.take(i as int));
            if self.weights[i].0 == name {
                return self.weights[i].1;
            }
        }
        Weight::from_parts(0, 0)
    }

    /// The weight of `service_page_base`.
    pub fn service_page_base(&self) -> (weight: Weight)
        ensures
            weight == weight_of(self@, "service_page_base"@),
    {
        self.get("service_page_base")
    }

    /// The weight of `service_queue_base`.
    pub fn service_queue_base(&self) -> (weight: Weight)
        ensures
            weight == weight_of(self@, "service_queue_base"@),
    {
        self.get("service_queue_base")
    }

    /// The weight of `service_page_process_message`.
    pub fn service_page_process_message(&self) -> (weight: Weight)
        ensures
            weight == weight_of(self@, "service_page_process_message"@),
    {
        self.get("service_page_process_message")
    }

    /// The weight of `bump_service_head`.
    pub fn bump_service_head(&self) -> (weight: Weight)
        ensures
            weight == weight_of(self@, "bump_service_head"@),
    {
        self.get("bump_service_head")
    }

    /// The weight of `service_page_item`.
    pub fn service_page_item(&self) -> (weight: Weight)
        ensures
            weight == weight_of(self@, "service_page_item"@),
    {
        self.get("service_page_item")
    }

    /// The weight of `ready_ring_unknit`.
    pub fn ready_ring_unknit(&self) -> (weight: Weight)
        ensures
            weight == weight_of(self@, "ready_ring_unknit"@),
    {
        self.get("ready_ring_unknit")
    }
}

/// A weight that was set is the weight of that call, until it is set again, and of no
/// other.
pub proof fn lemma_set_weight(
    weights: Map<Seq<char>, Weight>,
    call_name: Seq<char>,
    weight: Weight,
    other: Seq<char>,
)
    ensures
        weight_of(weights.insert(call_name, weight), call_name) == weight,
        other != call_name ==> weight_of(weights.insert(call_name, weight), other) == weight_of(
            weights,
            other,
        ),
{
}

} // verus!
