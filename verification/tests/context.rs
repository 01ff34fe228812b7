use std::io::ErrorKind;
use vaal::{Context, Error, Status};

fn fresh() -> Context<u64, Vec<i32>> {
    Context::new(Some(0x1000), ErrorKind::Other).unwrap()
}

fn ok() -> Status {
    Status { code: 0, description: None }
}

fn failed(code: u32, description: &str) -> Status {
    Status { code, description: Some(description.as_bytes().to_vec()) }
}

#[test]
fn new_context_owns_the_handle() {
    let context = fresh();
    assert_eq!(context.handle(), Some(&0x1000));
}

#[test]
fn new_context_has_no_model_and_no_runtime() {
    let mut context = fresh();
    assert_eq!(context.model(), Err(Error::WrapperError("No model available".to_string())));
    assert_eq!(
        context.dvrt_context_const(),
        Err(Error::WrapperError("No DeepViewRT context".to_string()))
    );
    assert_eq!(
        context.dvrt_context(),
        Err(Error::WrapperError("No DeepViewRT context".to_string()))
    );
}

#[test]
fn null_handle_is_an_io_error_of_the_last_kind() {
    let refused = Context::<u64, ()>::new(None, ErrorKind::OutOfMemory).unwrap_err();
    assert_eq!(refused, Error::IoError(ErrorKind::OutOfMemory));
    let refused = Context::<u64, ()>::new(None, ErrorKind::NotFound).unwrap_err();
    assert_eq!(refused, Error::IoError(ErrorKind::NotFound));
}

#[test]
fn accepted_model_is_retained() {
    let mut context = fresh();
    assert_eq!(context.load_model(vec![1, 2, 3], ok()), Ok(()));
    assert_eq!(context.model(), Ok(&[1u8, 2, 3][..]));
}

#[test]
fn refused_model_leaves_the_context_as_it_was() {
    let mut context = fresh();
    assert_eq!(
        context.load_model(vec![9, 9], failed(20, "model invalid")),
        Err(Error::VAALError("model invalid".to_string()))
    );
    assert_eq!(context.model(), Err(Error::WrapperError("No model available".to_string())));
    assert_eq!(context.handle(), Some(&0x1000));
}

#[test]
fn refused_model_keeps_the_model_loaded_before() {
    let mut context = fresh();
    context.load_model(vec![1, 2, 3], ok()).unwrap();
    assert_eq!(context.load_model(vec![7], Status { code: 3, description: None }), Err(Error::Null()));
    assert_eq!(context.model(), Ok(&[1u8, 2, 3][..]));
}

#[test]
fn context_is_loadable_again_after_a_refusal() {
    let mut context = fresh();
    context.load_model(vec![7], failed(20, "model invalid")).unwrap_err();
    assert_eq!(context.load_model(vec![4, 5], ok()), Ok(()));
    assert_eq!(context.model(), Ok(&[4u8, 5][..]));
}

#[test]
fn second_model_replaces_the_first() {
    let mut context = fresh();
    context.load_model(vec![1, 2, 3], ok()).unwrap();
    context.load_model(vec![4], ok()).unwrap();
    assert_eq!(context.model(), Ok(&[4u8][..]));
}

#[test]
fn empty_model_counts_as_no_model() {
    let mut context = fresh();
    assert_eq!(context.load_model(Vec::new(), ok()), Ok(()));
    assert_eq!(context.model(), Err(Error::WrapperError("No model available".to_string())));
}

#[test]
fn unload_drops_the_model_bytes() {
    let mut context = fresh();
    context.load_model(vec![1, 2, 3], ok()).unwrap();
    assert_eq!(context.unload_model(ok()), Ok(()));
    assert_eq!(context.model(), Err(Error::WrapperError("No model available".to_string())));
}

#[test]
fn refused_unload_keeps_the_model_bytes() {
    let mut context = fresh();
    context.load_model(vec![1, 2, 3], ok()).unwrap();
    assert_eq!(
        context.unload_model(failed(1, "internal error")),
        Err(Error::VAALError("internal error".to_string()))
    );
    assert_eq!(context.model(), Ok(&[1u8, 2, 3][..]));
}

#[test]
fn runtime_is_kept_once_given() {
    let mut context = fresh();
    assert_eq!(context.set_dvrt_context(Ok(vec![1, 2])), Ok(()));
    assert_eq!(context.dvrt_context_const(), Ok(&vec![1, 2]));
}

#[test]
fn runtime_can_be_worked_on() {
    let mut context = fresh();
    context.set_dvrt_context(Ok(vec![1, 2])).unwrap();
    context.dvrt_context().unwrap().push(3);
    assert_eq!(context.dvrt_context_const(), Ok(&vec![1, 2, 3]));
}

#[test]
fn missing_runtime_is_a_wrapper_error_with_its_reason() {
    let mut context = fresh();
    assert_eq!(
        context.set_dvrt_context(Err("ptr is null".to_string())),
        Err(Error::WrapperError("ptr is null".to_string()))
    );
    assert_eq!(
        context.dvrt_context_const(),
        Err(Error::WrapperError("No DeepViewRT context".to_string()))
    );
}

#[test]
fn missing_runtime_keeps_the_runtime_given_before() {
    let mut context = fresh();
    context.set_dvrt_context(Ok(vec![5])).unwrap();
    context.set_dvrt_context(Err("ptr is null".to_string())).unwrap_err();
    assert_eq!(context.dvrt_context_const(), Ok(&vec![5]));
}

#[test]
fn run_reports_what_the_engine_reported() {
    let context = fresh();
    assert_eq!(context.run_model(ok()), Ok(()));
    assert_eq!(
        context.run_model(failed(21, "model missing")),
        Err(Error::VAALError("model missing".to_string()))
    );
    assert_eq!(context.run_model(Status { code: 21, description: None }), Err(Error::Null()));
}

#[test]
fn frame_reports_what_the_engine_reported() {
    let context = fresh();
    assert_eq!(context.load_frame_dmabuf(ok()), Ok(()));
    assert_eq!(
        context.load_frame_dmabuf(failed(6, "invalid parameter")),
        Err(Error::VAALError("invalid parameter".to_string()))
    );
}

#[test]
fn image_path_is_marshaled() {
    let context = fresh();
    let path = context.load_image_file("images/dog.jpg").unwrap();
    assert_eq!(path.as_bytes_with_nul(), b"images/dog.jpg\0");
}

#[test]
fn image_path_with_terminator_is_refused() {
    let context = fresh();
    assert_eq!(
        context.load_image_file("images\0dog.jpg").unwrap_err(),
        Error::WrapperError("nul byte found in provided data at position: 6".to_string())
    );
}

#[test]
fn release_hands_the_handle_out_once() {
    let mut context = fresh();
    assert_eq!(context.release(), Some(0x1000));
    assert_eq!(context.handle(), None);
    assert_eq!(context.release(), None);
    assert_eq!(context.release(), None);
}

#[test]
fn release_follows_a_failed_operation() {
    let mut context = fresh();
    context.load_model(vec![1], failed(20, "model invalid")).unwrap_err();
    context.run_model(failed(21, "model missing")).unwrap_err();
    context.unload_model(failed(21, "model missing")).unwrap_err();
    context.set_dvrt_context(Err("ptr is null".to_string())).unwrap_err();
    assert_eq!(context.handle(), Some(&0x1000));
    assert_eq!(context.release(), Some(0x1000));
    assert_eq!(context.release(), None);
}

#[test]
fn release_follows_successful_operations() {
    let mut context = fresh();
    context.load_model(vec![1], ok()).unwrap();
    context.set_dvrt_context(Ok(vec![0])).unwrap();
    context.run_model(ok()).unwrap();
    context.unload_model(ok()).unwrap();
    assert_eq!(context.release(), Some(0x1000));
    assert_eq!(context.release(), None);
}

#[test]
fn model_bytes_outlive_the_release() {
    let mut context = fresh();
    context.load_model(vec![1, 2], ok()).unwrap();
    assert_eq!(context.release(), Some(0x1000));
    assert_eq!(context.model(), Ok(&[1u8, 2][..]));
}

#[test]
fn released_context_stays_as_it_is() {
    let mut context = fresh();
    context.load_model(vec![1, 2], ok()).unwrap();
    context.set_dvrt_context(Ok(vec![8])).unwrap();
    assert_eq!(context.release(), Some(0x1000));
    assert_eq!(context.load_model(vec![3], ok()), Ok(()));
    assert_eq!(context.model(), Ok(&[1u8, 2][..]));
    assert_eq!(context.unload_model(ok()), Ok(()));
    assert_eq!(context.model(), Ok(&[1u8, 2][..]));
    assert_eq!(context.set_dvrt_context(Ok(vec![9])), Ok(()));
    assert_eq!(context.dvrt_context_const(), Ok(&vec![8]));
    assert_eq!(context.release(), None);
}
