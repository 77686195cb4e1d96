use criterion::analysis::{
    function, function_with_inputs, functions, program, program_with_inputs, summarize, Job,
    Routine,
};
use criterion::config::Criterion;

fn print(text: &str) -> Job {
    Job::Print { text: text.to_string() }
}

fn run_function(id: &str, index: usize, input: Option<usize>) -> Job {
    Job::Run { id: id.to_string(), routine: Routine::Function { index, input } }
}

fn run_program(id: &str, argument: Option<&str>) -> Job {
    Job::Run {
        id: id.to_string(),
        routine: Routine::Program { argument: argument.map(|a| a.to_string()) },
    }
}

fn summary_with_plots(id: &str) -> Vec<Job> {
    vec![
        print(&format!("Summarizing results of {}... ", id)),
        Job::Summarize { id: id.to_string() },
        print("DONE\n\n"),
    ]
}

#[test]
fn summarize_plots_between_two_messages() {
    assert_eq!(summarize("sort", &Criterion::new()), summary_with_plots("sort"));
}

#[test]
fn summarize_says_when_plots_are_disabled() {
    assert_eq!(
        summarize("sort", &Criterion::new().without_plots()),
        vec![print("Plotting disabled, skipping summarization\n")]
    );
}

#[test]
fn function_runs_once_and_ends_the_line() {
    assert_eq!(function("fib"), vec![run_function("fib", 0, None), print("\n")]);
}

#[test]
fn program_runs_once_and_ends_the_line() {
    assert_eq!(program("ls"), vec![run_program("ls", None), print("\n")]);
}

#[test]
fn functions_run_each_under_its_name() {
    let names = vec!["quick".to_string(), "merge".to_string(), "heap".to_string()];
    let mut expected = vec![
        run_function("sort/quick", 0, None),
        run_function("sort/merge", 1, None),
        run_function("sort/heap", 2, None),
    ];
    expected.extend(summary_with_plots("sort"));
    assert_eq!(functions("sort", &names, &Criterion::new()), expected);
}

#[test]
fn functions_without_functions_only_summarize() {
    assert_eq!(functions("sort", &vec![], &Criterion::new()), summary_with_plots("sort"));
    assert_eq!(
        function_with_inputs("sort", &vec![], &Criterion::new().without_plots()),
        vec![print("Plotting disabled, skipping summarization\n")]
    );
    assert_eq!(program_with_inputs("sort", &vec![], &Criterion::new()), summary_with_plots("sort"));
}

#[test]
fn function_with_inputs_runs_once_per_input() {
    let inputs = vec!["8".to_string(), "1024".to_string()];
    let mut expected = vec![run_function("fib/8", 0, Some(0)), run_function("fib/1024", 0, Some(1))];
    expected.push(print("Plotting disabled, skipping summarization\n"));
    assert_eq!(function_with_inputs("fib", &inputs, &Criterion::new().without_plots()), expected);
}

#[test]
fn program_with_inputs_passes_each_input_as_argument() {
    let inputs = vec!["8".to_string(), "1024".to_string(), "x y".to_string()];
    let mut expected = vec![
        run_program("fib/8", Some("8")),
        print("\n"),
        run_program("fib/1024", Some("1024")),
        print("\n"),
        run_program("fib/x y", Some("x y")),
        print("\n"),
    ];
    expected.extend(summary_with_plots("fib"));
    assert_eq!(program_with_inputs("fib", &inputs, &Criterion::new()), expected);
}
