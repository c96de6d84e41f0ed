use vstd::prelude::*;

verus! {

/// Length of the feature vector the classifier takes: eight relative band
/// powers, the beta/theta and alpha/beta ratios, and the temporal delta term.
pub const FEATURE_COUNT: usize = 11;

/// Class index the classifier gives to the focused state.
pub const FOCUSED_CLASS: i64 = 1;

/// What the classifier predicted: the class index and its label.
#[derive(Clone, Debug)]
pub struct FocusPrediction {
    pub label: i64,
    pub label_name: String,
}

/// Why an inference gave no label.
#[derive(Clone, Debug)]
pub enum InferenceError {
    /// No model has been loaded yet.
    ModelNotLoaded,
    /// The normalisation parameters do not have one entry per feature.
    FeatureCountMismatch,
    /// The runtime failed to run the model; its message.
    Runtime(String),
    /// The runtime returned no class index.
    EmptyOutput,
}

pub open spec fn label_name_of(class: i64) -> Seq<char> {
    if class == FOCUSED_CLASS {
        "Focused"@
    } else {
        "Unfocused"@
    }
}

pub open spec fn model_not_loaded_message() -> Seq<char> {
    "ML model not loaded — use the Model Setup card to load cerebro_unified.onnx and scaler_params.json"@
}

pub open spec fn feature_count_message() -> Seq<char> {
    "Scaler parameters do not match the 11-feature vector"@
}

pub open spec fn empty_output_message() -> Seq<char> {
    "ONNX returned an empty output tensor"@
}

pub open spec fn error_message(e: InferenceError) -> Seq<char> {
    match e {
        InferenceError::ModelNotLoaded => model_not_loaded_message(),
        InferenceError::FeatureCountMismatch => feature_count_message(),
        InferenceError::Runtime(m) => m@,
        InferenceError::EmptyOutput => empty_output_message(),
    }
}

impl InferenceError {
    /// The human-readable message for this error.
    pub fn message(&self) -> (r: String)
        ensures
            r@ == error_message(*self),
    {
        match self {
            InferenceError::ModelNotLoaded => {
                "ML model not loaded — use the Model Setup card to load cerebro_unified.onnx and scaler_params.json".to_string()
            },
            InferenceError::FeatureCountMismatch => {
                "Scaler parameters do not match the 11-feature vector".to_string()
            },
            InferenceError::Runtime(m) => m.clone(),
            InferenceError::EmptyOutput => "ONNX returned an empty output tensor".to_string(),
        }
    }
}

/// Maps a classifier class index to its label: "Focused" for the focused
/// class, "Unfocused" for any other.
pub fn focus_label_name(predicted_class: i64) -> (r: String)
    ensures
        r@ == label_name_of(predicted_class),
{
    if predicted_class == FOCUSED_CLASS {
        "Focused".to_string()
    } else {
        "Unfocused".to_string()
    }
}

/// Reads the prediction off the classifier's output: the first class index, or
/// `EmptyOutput` when there is none.
pub fn prediction_from_class_ids(class_ids: &[i64]) -> (r: Result<FocusPrediction, InferenceError>)
    ensures
        class_ids@.len() == 0 <==> r is Err,
        r is Err ==> r->Err_0 is EmptyOutput,
        r is Ok ==> r->Ok_0.label == class_ids@[0] && r->Ok_0.label_name@ == label_name_of(
            class_ids@[0],
        ),
{
    if class_ids.len() == 0 {
        Err(InferenceError::EmptyOutput)
    } else {
        let class = class_ids[0];
        Ok(FocusPrediction { label: class, label_name: focus_label_name(class) })
    }
}

/// Checks that the normalisation parameters (per-feature means and scales)
/// have exactly one entry per feature.
pub fn check_scaler_lengths(mean_len: usize, scale_len: usize) -> (r: Result<(), InferenceError>)
    ensures
        r is Ok <==> (mean_len == FEATURE_COUNT && scale_len == FEATURE_COUNT),
        r is Err ==> r->Err_0 is FeatureCountMismatch,
{
    if mean_len == FEATURE_COUNT && scale_len == FEATURE_COUNT {
        Ok(())
    } else {
        Err(InferenceError::FeatureCountMismatch)
    }
}

/// The one piece of state that couples successive inferences: the value the
/// previous call saw (the relative delta power), seeded at load.
pub struct TemporalState<T> {
    pub previous: T,
}

/// One call on the temporal state: the value kept afterwards and the value
/// handed back (the one kept before).
pub open spec fn exchange_outcome<T>(previous: T, current: T) -> (T, T) {
    (current, previous)
}

/// The values handed back by successive calls on a state holding `previous`,
/// fed `inputs` in order.
pub open spec fn handed_back<T>(previous: T, inputs: Seq<T>) -> Seq<T>
    decreases inputs.len(),
{
    if inputs.len() == 0 {
        Seq::empty()
    } else {
        let (kept, given) = exchange_outcome(previous, inputs[0]);
        seq![given] + handed_back(kept, inputs.drop_first())
    }
}

impl<T: Copy> TemporalState<T> {
    /// A fresh state holding `seed` as the previous value.
    pub fn new(seed: T) -> (r: TemporalState<T>)
        ensures
            r.previous == seed,
    {
        TemporalState { previous: seed }
    }

    /// Records `current` and returns the value it replaces: the previous value
    /// is read once, then overwritten once.
    pub fn exchange(&mut self, current: T) -> (r: T)
        ensures
            (final(self).previous, r) == exchange_outcome(old(self).previous, current),
    {
        let previous = self.previous;
        self.previous = current;
        previous
    }
}

/// What successive calls hand back depends on the seed and the inputs alone:
/// the seed first, then each input one call late. Two fresh states seeded
/// alike and fed the same inputs in the same order therefore agree call by call.
pub proof fn lemma_temporal_determinism<T>(seed: T, inputs: Seq<T>)
    requires
        inputs.len() > 0,
    ensures
        handed_back(seed, inputs) == seq![seed] + inputs.take(inputs.len() - 1),
    decreases inputs.len(),
{
    let tail = inputs.drop_first();
    if tail.len() > 0 {
        lemma_temporal_determinism(inputs[0], tail);
        assert(seq![inputs[0]] + tail.take(tail.len() - 1) =~= inputs.take(inputs.len() - 1));
        assert(handed_back(seed, inputs) =~= seq![seed] + handed_back(inputs[0], tail));
    } else {
        assert(handed_back(inputs[0], tail) =~= Seq::<T>::empty());
        assert(handed_back(seed, inputs) =~= seq![seed] + handed_back(inputs[0], tail));
    }
    assert(handed_back(seed, inputs) =~= seq![seed] + inputs.take(inputs.len() - 1));
}

/// The state carries over: fed `a` then `b`, the call on `b` gets `a` back,
/// while `b` alone on a fresh state gets the seed. Where `a` differs from the
/// seed, the two calls on `b` see different previous values.
pub proof fn lemma_temporal_coupling<T>(seed: T, a: T, b: T)
    requires
        a != seed,
    ensures
        handed_back(seed, seq![a, b])[1] == a,
        handed_back(seed, seq![b])[0] == seed,
        handed_back(seed, seq![a, b])[1] != handed_back(seed, seq![b])[0],
{
    lemma_temporal_determinism(seed, seq![a, b]);
    lemma_temporal_determinism(seed, seq![b]);
    assert(seq![a, b].take(1) =~= seq![a]);
    assert((seq![seed] + seq![a])[1] == a);
    assert((seq![seed] + seq![b].take(0))[0] == seed);
}

/// Where the model lives between loads. A failed load leaves whatever was
/// loaded before in place.
pub struct ModelSlot<M> {
    pub model: Option<M>,
}

impl<M> ModelSlot<M> {
    /// A slot with no model.
    pub fn new() -> (r: ModelSlot<M>)
        ensures
            r.model is None,
    {
        ModelSlot { model: None }
    }

    /// Whether a model has been loaded.
    pub fn is_loaded(&self) -> (r: bool)
        ensures
            r == self.model is Some,
    {
        self.model.is_some()
    }

    /// Installs the outcome of a load: a loaded model replaces the old one as
    /// a whole; a failure is handed back and the old model stays.
    pub fn install(&mut self, loaded: Result<M, String>) -> (r: Result<(), String>)
        ensures
            loaded is Ok ==> r is Ok && final(self).model == Some(loaded->Ok_0),
            loaded is Err ==> r == Err::<(), String>(loaded->Err_0) && final(self).model == old(
                self,
            ).model,
    {
        match loaded {
            Ok(m) => {
                self.model = Some(m);
                Ok(())
            },
            Err(e) => Err(e),
        }
    }

    /// The loaded model, or `ModelNotLoaded`.
    pub fn loaded_mut(&mut self) -> (r: Result<&mut M, InferenceError>)
        ensures
            old(self).model is None <==> r is Err,
            r is Err ==> r->Err_0 is ModelNotLoaded && final(self).model is None,
            r is Ok ==> *r->Ok_0 == old(self).model->Some_0 && final(self).model == Some(
                *final(r->Ok_0),
            ),
    {
        match &mut self.model {
            Some(m) => Ok(m),
            None => Err(InferenceError::ModelNotLoaded),
        }
    }
}

} // verus!
