use numerics_engine::domain::{map_range, CalculationResults, Domain, ParameterSpecification};
use numerics_engine::npy::Numpy;
use numerics_engine::saver::{save, Savable};

struct Steps {
    points: Vec<i64>,
}

impl Domain for Steps {
    type PointInDomain = i64;

    fn execute_map<TFunc, TParams, TOutput>(&self, function: &TFunc, parameters: &TParams) -> Vec<TOutput>
    where
        TParams: Sync,
        TFunc: Fn(Self::PointInDomain, &TParams) -> TOutput + Sync,
        TOutput: Send,
    {
        self.points.iter().map(|p| function(*p, parameters)).collect()
    }
}

#[test]
fn multimap_keeps_names_and_order() {
    let domain = Steps { points: vec![1, 2, 3] };
    let spec = ParameterSpecification::named(vec![("a = 1".to_string(), 1i64), ("a = 10".to_string(), 10i64)]);
    let results = domain.execute_multimap(|x, a: &i64| x * a, spec);
    assert_eq!(results.result_names, vec!["a = 1".to_string(), "a = 10".to_string()]);
    assert_eq!(results.results, vec![vec![1, 2, 3], vec![10, 20, 30]]);
    assert_eq!(results.domain_data.points, vec![1, 2, 3]);
}

#[test]
fn single_parameter_is_unnamed() {
    let domain = Steps { points: vec![4, 5] };
    let results = domain.execute_multimap(|x, a: &i64| x + a, ParameterSpecification::single(100i64));
    assert_eq!(results.result_names, vec![String::new()]);
    assert_eq!(results.results, vec![vec![104, 105]]);
}

#[test]
fn map_output_applies_to_every_value() {
    let domain = Steps { points: vec![] };
    let results = CalculationResults {
        domain_data: &domain,
        results: vec![vec![1, -2], vec![3]],
        result_names: vec!["first".to_string(), "second".to_string()],
    };
    let squared = results.map_output(|v: &i64| v * v);
    assert_eq!(squared.results, vec![vec![1, 4], vec![9]]);
    assert_eq!(squared.result_names, results.result_names);
}

#[test]
fn map_range_keeps_order() {
    let doubled = map_range(&vec![3u32, 1, 2], &|v: &u32| v * 2);
    assert_eq!(doubled, vec![6, 2, 4]);
}

struct Recorder;

impl Savable<Recorder, String> for Vec<u8> {
    fn save(&self, file_path: &str, _context: &Recorder) -> Result<(), String> {
        if self.is_empty() {
            Err(format!("nothing to write to {file_path}"))
        } else {
            Ok(())
        }
    }
}

#[test]
fn save_forwards_to_the_data() {
    assert_eq!(save(&vec![1u8], "out", &Recorder), Ok(()));
    assert_eq!(save(&Vec::<u8>::new(), "out", &Recorder), Err("nothing to write to out".to_string()));
}

fn expected_header(dict: &str) -> Vec<u8> {
    let mut header = vec![0x93, b'N', b'U', b'M', b'P', b'Y', 1, 0, 118, 0];
    header.extend_from_slice(dict.as_bytes());
    while header.len() < 127 {
        header.push(b' ');
    }
    header.push(b'\n');
    header
}

#[test]
fn npy_header_one_dimensional() {
    let header = Numpy.header_1d(3);
    assert_eq!(header.len(), 128);
    assert_eq!(header, expected_header("{'descr': '<f8', 'fortran_order': False, 'shape': (3,), }"));
}

#[test]
fn npy_header_two_dimensional() {
    let header = Numpy.header_2d(2, 150);
    assert_eq!(header.len(), 128);
    assert_eq!(header, expected_header("{'descr': '<f8', 'fortran_order': False, 'shape': (2,150), }"));
}

#[test]
fn npy_header_extreme_lengths() {
    assert_eq!(Numpy.header_1d(0), expected_header("{'descr': '<f8', 'fortran_order': False, 'shape': (0,), }"));
    let dict = format!("{{'descr': '<f8', 'fortran_order': False, 'shape': ({},{}), }}", usize::MAX, usize::MAX);
    assert_eq!(Numpy.header_2d(usize::MAX, usize::MAX), expected_header(&dict));
}
