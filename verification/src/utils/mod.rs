pub mod bench_utils_graph;
pub mod test_utils;
