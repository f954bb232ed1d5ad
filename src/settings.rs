use vstd::prelude::*;

verus! {

/// The completion models that can be selected, each with its own price.
#[derive(Clone, Copy, Debug, PartialEq, Eq, Structural)]
pub enum Model {
    Gpt4Turbo,
    Gpt432K,
    Gpt4,
    Gpt3,
}

/// The price of one prompt token under `m`, in millionths of a dollar.
pub open spec fn prompt_rate(m: Model) -> int {
    match m {
        Model::Gpt3 => 2,
        Model::Gpt4 => 30,
        Model::Gpt432K => 60,
        Model::Gpt4Turbo => 10,
    }
}

/// The price of one completion token under `m`, in millionths of a dollar.
pub open spec fn completion_rate(m: Model) -> int {
    match m {
        Model::Gpt3 => 2,
        Model::Gpt4 => 60,
        Model::Gpt432K => 120,
        Model::Gpt4Turbo => 30,
    }
}

/// The estimated price of a request, in millionths of a dollar.
pub open spec fn cost_of(m: Model, prompt_tokens: int, completion_tokens: int) -> int {
    prompt_tokens * prompt_rate(m) + completion_tokens * completion_rate(m)
}

/// The name under which the service knows `m`.
pub open spec fn model_name(m: Model) -> Seq<char> {
    match m {
        Model::Gpt4Turbo => "gpt-4-1106-preview"@,
        Model::Gpt432K => "gpt-4-32k"@,
        Model::Gpt4 => "gpt-4"@,
        Model::Gpt3 => "gpt-3.5-turbo"@,
    }
}

impl Model {
    /// The estimated cost of a request, in millionths of a dollar, from its
    /// prompt and completion token counts.
    pub fn calculate_cost(&self, prompt_tokens: u64, completion_tokens: u64) -> (r: u128)
        ensures
            r == cost_of(*self, prompt_tokens as int, completion_tokens as int),
    {
        let p = prompt_tokens as u128;
        let c = completion_tokens as u128;
        assert(p * 120 <= 0xffff_ffff_ffff_ffff * 120) by (nonlinear_arith)
            requires p <= 0xffff_ffff_ffff_ffff;
        assert(c * 120 <= 0xffff_ffff_ffff_ffff * 120) by (nonlinear_arith)
            requires c <= 0xffff_ffff_ffff_ffff;
        match self {
            Model::Gpt3 => p * 2 + c * 2,
            Model::Gpt4 => p * 30 + c * 60,
            Model::Gpt432K => p * 60 + c * 120,
            Model::Gpt4Turbo => p * 10 + c * 30,
        }
    }

    /// The name under which the service knows this model.
    pub fn to_string(&self) -> (r: &'static str)
        ensures
            r@ == model_name(*self),
    {
        match self {
            Model::Gpt4Turbo => "gpt-4-1106-preview",
            Model::Gpt432K => "gpt-4-32k",
            Model::Gpt4 => "gpt-4",
            Model::Gpt3 => "gpt-3.5-turbo",
        }
    }
}

/// The user's configuration: the service credential, if one was given, and
/// the selected model.
#[derive(Clone, Debug)]
pub struct Settings {
    pub openai_key: Option<String>,
    pub model: Model,
}

impl Settings {
    /// Settings with the given credential and model.
    pub fn new(openai_key: Option<String>, model: Model) -> (r: Settings)
        ensures
            r.openai_key == openai_key,
            r.model == model,
    {
        Settings { openai_key, model }
    }

    /// The settings of a fresh installation: no credential, the cheapest model.
    pub fn _default() -> (r: Settings)
        ensures
            r.openai_key is None,
            r.model == Model::Gpt3,
    {
        Settings { openai_key: None, model: Model::Gpt3 }
    }

    pub fn get_key(&self) -> (r: &Option<String>)
        ensures
            *r == self.openai_key,
    {
        &self.openai_key
    }

    pub fn get_model(&self) -> (r: &Model)
        ensures
            *r == self.model,
    {
        &self.model
    }
}

} // verus!
