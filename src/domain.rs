//! Domains that a function is mapped over, and the results of such maps.
//!
//! A domain hands out its points in a fixed order; mapping a function over it
//! gives one output per point, in the same order. A multimap runs one such map
//! for each entry of a parameter specification and keeps the entry's name.
use vstd::prelude::*;

verus! {

/// `output` is what `function` returns at some point under `parameters`.
pub open spec fn output_at_some_point<TPoint, TParams, TOutput, TFunc>(
    function: TFunc,
    parameters: &TParams,
    output: TOutput,
) -> bool
    where
        TFunc: Fn(TPoint, &TParams) -> TOutput,
{
    exists|p: TPoint| #[trigger] function.ensures((p, parameters), output)
}

/// A set of points that a function of a point and a parameter record can be
/// mapped over.
pub trait Domain: Sized {
    type PointInDomain;

    /// The outputs of `function` at each point of the domain, in the domain's
    /// order, under the parameter record `parameters`. The contract states that
    /// every output is what `function` returns at some point under `parameters`.
    fn execute_map<TFunc, TParams, TOutput>(&self, function: &TFunc, parameters: &TParams) -> (r: Vec<TOutput>)
        where
            TParams: Sync,
            TFunc: Fn(Self::PointInDomain, &TParams) -> TOutput + Sync,
            TOutput: Send,
        requires
            forall|p: Self::PointInDomain| #[trigger] function.requires((p, parameters)),
        ensures
            forall|j: int| 0 <= j < r@.len()
                ==> output_at_some_point::<Self::PointInDomain, TParams, TOutput, TFunc>(*function, parameters, #[trigger] r@[j]),
    ;

    /// Runs `execute_map` once per parameter record, in order, and keeps each
    /// record's name beside its outputs: range `i` holds outputs of `function`
    /// under record `i`'s parameters.
    fn execute_multimap<TFunc, TParams, TOutput>(
        &self,
        function: TFunc,
        parameter_specification: ParameterSpecification<TParams>,
    ) -> (r: CalculationResults<'_, Self, TOutput>)
        where
            TParams: Sync,
            TFunc: Fn(Self::PointInDomain, &TParams) -> TOutput + Sync,
            TOutput: Send,
        requires
            forall|p: Self::PointInDomain, q: &TParams| #[trigger] function.requires((p, q)),
        ensures
            r.wf(),
            r.domain_data == self,
            r.result_names@.len() == parameter_specification.parameter_values@.len(),
            forall|i: int| 0 <= i < r.result_names@.len()
                ==> #[trigger] r.result_names@[i]@ == parameter_specification.parameter_values@[i].0@,
            forall|i: int, j: int| 0 <= i < r.results@.len() && 0 <= j < r.results@[i]@.len()
                ==> output_at_some_point::<Self::PointInDomain, TParams, TOutput, TFunc>(
                    function,
                    &parameter_specification.parameter_values@[i].1,
                    #[trigger] r.results@[i]@[j],
                ),
    {
        let params = &parameter_specification.parameter_values;
        let mut results: Vec<Vec<TOutput>> = Vec::new();
        let mut result_names: Vec<String> = Vec::new();
        let mut i: usize = 0;
        while i < params.len()
            invariant
                i <= params@.len(),
                results@.len() == i,
                result_names@.len() == i,
                forall|p: Self::PointInDomain, q: &TParams| #[trigger] function.requires((p, q)),
                forall|k: int| 0 <= k < i ==> #[trigger] result_names@[k]@ == params@[k].0@,
                forall|k: int, j: int| 0 <= k < i && 0 <= j < results@[k]@.len()
                    ==> output_at_some_point::<Self::PointInDomain, TParams, TOutput, TFunc>(
                        function,
                        &params@[k].1,
                        #[trigger] results@[k]@[j],
                    ),
            decreases params@.len() - i,
        {
            let outputs = self.execute_map(&function, &params[i].1);
            let ghost before = results@;
            let ghost fresh = outputs@;
            results.push(outputs);
            proof {
                assert forall|k: int, j: int| 0 <= k <= i && 0 <= j < results@[k]@.len()
                    implies output_at_some_point::<Self::PointInDomain, TParams, TOutput, TFunc>(
                        function,
                        &params@[k].1,
                        #[trigger] results@[k]@[j],
                    ) by {
                    if k < i {
                        assert(results@[k] == before[k]);
                        assert(before[k]@[j] == results@[k]@[j]);
                    } else {
                        assert(results@[k]@ == fresh);
                        assert(fresh[j] == results@[k]@[j]);
                    }
                }
            }
            result_names.push(params[i].0.clone());
            i = i + 1;
        }
        CalculationResults { domain_data: self, results, result_names }
    }
}

/// Named parameter records for a multimap, in the order they are run.
pub struct ParameterSpecification<TParams> {
    pub parameter_values: Vec<(String, TParams)>,
}

impl<TParams> ParameterSpecification<TParams> {
    /// A single unnamed parameter record.
    pub fn single(value: TParams) -> (r: ParameterSpecification<TParams>)
        ensures
            r.parameter_values@.len() == 1,
            r.parameter_values@[0].0@ == Seq::<char>::empty(),
            r.parameter_values@[0].1 == value,
    {
        let mut parameter_values: Vec<(String, TParams)> = Vec::new();
        parameter_values.push((String::new(), value));
        ParameterSpecification { parameter_values }
    }

    /// Parameter records with the given names, in the given order.
    pub fn named(parameter_values: Vec<(String, TParams)>) -> (r: ParameterSpecification<TParams>)
        ensures
            r.parameter_values@ == parameter_values@,
    {
        ParameterSpecification { parameter_values }
    }
}

/// The outputs of a multimap: one range of outputs per parameter record,
/// under the record's name, over the points of `domain_data`.
pub struct CalculationResults<'a, TDomain, TOutput> {
    pub domain_data: &'a TDomain,
    pub results: Vec<Vec<TOutput>>,
    pub result_names: Vec<String>,
}

impl<'a, TDomain, TOutput> CalculationResults<'a, TDomain, TOutput> {
    /// Each range has a name.
    pub open spec fn wf(&self) -> bool {
        self.results@.len() == self.result_names@.len()
    }

    /// Applies `function` to every output, keeping the domain, the names and
    /// the shape of each range.
    pub fn map_output<TFunc, TNewOutput>(&self, function: TFunc) -> (r: CalculationResults<'a, TDomain, TNewOutput>)
        where
            TFunc: Fn(&TOutput) -> TNewOutput,
        requires
            self.wf(),
            forall|x: &TOutput| #[trigger] function.requires((x,)),
        ensures
            r.wf(),
            r.domain_data == self.domain_data,
            r.result_names@.len() == self.result_names@.len(),
            forall|i: int| 0 <= i < r.result_names@.len()
                ==> #[trigger] r.result_names@[i]@ == self.result_names@[i]@,
            r.results@.len() == self.results@.len(),
            forall|i: int| 0 <= i < r.results@.len()
                ==> #[trigger] r.results@[i]@.len() == self.results@[i]@.len(),
            forall|i: int, j: int| 0 <= i < r.results@.len() && 0 <= j < r.results@[i]@.len()
                ==> function.ensures((&self.results@[i]@[j],), #[trigger] r.results@[i]@[j]),
    {
        let mut results: Vec<Vec<TNewOutput>> = Vec::new();
        let mut result_names: Vec<String> = Vec::new();
        let n = self.results.len();
        let mut i: usize = 0;
        while i < n
            invariant
                n == self.results@.len(),
                n == self.result_names@.len(),
                i <= n,
                results@.len() == i,
                result_names@.len() == i,
                forall|x: &TOutput| #[trigger] function.requires((x,)),
                forall|k: int| 0 <= k < i ==> #[trigger] result_names@[k]@ == self.result_names@[k]@,
                forall|k: int| 0 <= k < i ==> #[trigger] results@[k]@.len() == self.results@[k]@.len(),
                forall|k: int, j: int| 0 <= k < i && 0 <= j < results@[k]@.len()
                    ==> function.ensures((&self.results@[k]@[j],), #[trigger] results@[k]@[j]),
            decreases n - i,
        {
            let range = map_range(&self.results[i], &function);
            results.push(range);
            result_names.push(self.result_names[i].clone());
            i = i + 1;
        }
        CalculationResults { domain_data: self.domain_data, results, result_names }
    }
}

/// Applies `function` to each output of a range, in order.
pub fn map_range<TInput, TOutput, TFunc>(input_range: &Vec<TInput>, function: &TFunc) -> (r: Vec<TOutput>)
    where
        TFunc: Fn(&TInput) -> TOutput,
    requires
        forall|x: &TInput| #[trigger] function.requires((x,)),
    ensures
        r@.len() == input_range@.len(),
        forall|j: int| 0 <= j < r@.len() ==> function.ensures((&input_range@[j],), #[trigger] r@[j]),
{
    let mut out: Vec<TOutput> = Vec::new();
    let mut j: usize = 0;
    while j < input_range.len()
        invariant
            j <= input_range@.len(),
            out@.len() == j,
            forall|x: &TInput| #[trigger] function.requires((x,)),
            forall|k: int| 0 <= k < j ==> function.ensures((&input_range@[k],), #[trigger] out@[k]),
        decreases input_range@.len() - j,
    {
        let value = function(&input_range[j]);
        out.push(value);
        j = j + 1;
    }
    out
}

} // verus!
