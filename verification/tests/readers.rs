use gloo_file::callbacks::{read_to_array_buffer, read_to_data_url, read_to_string};
use gloo_file::{
    Blob, BlobContents, FileReadError, RawValue, ReadValue, ReaderState, TeardownStep,
};

#[test]
fn read_as_text_delivers_the_decoded_text_exactly_once() {
    let blob = Blob::new(BlobContents::from_text("Hello world!"));
    let mut reader = read_to_string(&blob);
    assert_eq!(reader.state(), ReaderState::Reading);

    // The host finishes the read and fires the one-shot notification.
    let outcome = reader.on_loadend(None, Some(RawValue::Str("Hello world!".to_string())));
    assert_eq!(
        outcome,
        Some(Ok(ReadValue::Text("Hello world!".to_string())))
    );
    assert_eq!(reader.state(), ReaderState::Completed);

    // A second notification must not reach the callback again.
    let again = reader.on_loadend(None, Some(RawValue::Str("Hello world!".to_string())));
    assert_eq!(again, None);
    assert_eq!(reader.state(), ReaderState::Completed);
}

#[test]
fn dropped_handle_never_invokes_the_callback() {
    let blob = Blob::new(BlobContents::from_text("Hello world!"));
    let mut reader = read_to_string(&blob);

    // The handle is discarded immediately after the read started.
    let steps = reader.teardown();
    assert_eq!(
        steps,
        vec![TeardownStep::DeregisterListener, TeardownStep::AbortRead]
    );
    assert_eq!(reader.state(), ReaderState::Aborted);

    // A notification delivered after the teardown must not invoke the
    // callback either.
    let outcome = reader.on_loadend(None, Some(RawValue::Str("Hello world!".to_string())));
    assert_eq!(outcome, None);
    assert_eq!(reader.state(), ReaderState::Aborted);
}

#[test]
fn teardown_after_completion_is_a_no_op() {
    let blob = Blob::new(BlobContents::from_text("done"));
    let mut reader = read_to_string(&blob);
    let outcome = reader.on_loadend(None, Some(RawValue::Str("done".to_string())));
    assert!(outcome.is_some());

    let steps = reader.teardown();
    assert!(steps.is_empty());
    assert_eq!(reader.state(), ReaderState::Completed);
}

#[test]
fn host_error_becomes_an_error_outcome() {
    let blob = Blob::new(BlobContents::from_text("secret"));
    let mut reader = read_to_string(&blob);
    let error = FileReadError::new("NotReadableError: permission denied".to_string());
    let outcome = reader.on_loadend(Some(error.clone()), None);
    assert_eq!(outcome, Some(Err(error.clone())));
    assert_eq!(reader.state(), ReaderState::Errored);
    assert_eq!(
        error.message(),
        "NotReadableError: permission denied"
    );

    // The errored state is terminal: teardown has nothing left to do.
    assert!(reader.teardown().is_empty());
}

#[test]
fn read_as_data_url_delivers_a_data_url_string() {
    let blob = Blob::new(BlobContents::from_text("hi"));
    let mut reader = read_to_data_url(&blob);
    let outcome = reader.on_loadend(
        None,
        Some(RawValue::Str("data:text/plain;base64,aGk=".to_string())),
    );
    assert_eq!(
        outcome,
        Some(Ok(ReadValue::DataUrl(
            "data:text/plain;base64,aGk=".to_string()
        )))
    );
}

#[test]
fn read_as_array_buffer_delivers_the_raw_bytes() {
    let blob = Blob::new(BlobContents::from_bytes(&[104u8, 105]));
    let mut reader = read_to_array_buffer(&blob);
    let outcome = reader.on_loadend(None, Some(RawValue::Bytes(vec![104u8, 105])));
    assert_eq!(outcome, Some(Ok(ReadValue::ArrayBuffer(vec![104u8, 105]))));
    assert_eq!(reader.state(), ReaderState::Completed);
}

#[test]
fn teardown_twice_is_a_no_op_the_second_time() {
    let blob = Blob::new(BlobContents::from_text("x"));
    let mut reader = read_to_string(&blob);
    let first = reader.teardown();
    assert_eq!(first.len(), 2);
    let second = reader.teardown();
    assert!(second.is_empty());
    assert_eq!(reader.state(), ReaderState::Aborted);
}

#[test]
fn data_url_read_can_error_too() {
    let blob = Blob::new(BlobContents::from_text("x"));
    let mut reader = read_to_data_url(&blob);
    let error = FileReadError::new("AbortError".to_string());
    let outcome = reader.on_loadend(Some(error.clone()), None);
    assert_eq!(outcome, Some(Err(error)));
    assert_eq!(reader.state(), ReaderState::Errored);
}

#[test]
fn independent_reads_resolve_independently() {
    let blob = Blob::new(BlobContents::from_text("one two"));
    let mut first = read_to_string(&blob);
    let mut second = read_to_string(&blob);

    let first_outcome = first.on_loadend(None, Some(RawValue::Str("one two".to_string())));
    assert!(first_outcome.is_some());
    assert_eq!(second.state(), ReaderState::Reading);

    let steps = second.teardown();
    assert_eq!(steps.len(), 2);
    assert_eq!(first.state(), ReaderState::Completed);
}
