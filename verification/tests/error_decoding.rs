use bitbucket_api::client::ApiResult;
use bitbucket_api::error_payload::decode_errors;
use bitbucket_api::models::{BitbucketError, BitbucketErrors};

#[test]
fn not_found_body_decodes_to_its_message() {
    let body = "{\"errors\":[{\"context\":null,\"message\":\"Project x not found\",\"exceptionName\":null}]}";
    let decoded = decode_errors(body);
    assert!(decoded.is_some());
    let errors = decoded.unwrap();
    assert_eq!(errors.errors.len(), 1);
    assert_eq!(errors.errors[0].message, "Project x not found");
    assert_eq!(errors.errors[0].context, None);
    assert_eq!(errors.errors[0].exception_name, None);
}

#[test]
fn body_with_context_and_exception_decodes_whole_entry() {
    let body = "{\"errors\":[{\"context\":\"project\",\"message\":\"It went wrong\",\"exceptionName\":\"NoSuchProjectException\"}]}";
    let decoded = decode_errors(body);
    assert!(decoded.is_some());
    let errors = decoded.unwrap();
    assert_eq!(
        errors.errors,
        vec![BitbucketError {
            context: Some("project".to_string()),
            message: "It went wrong".to_string(),
            exception_name: Some("NoSuchProjectException".to_string()),
        }]
    );
}

#[test]
fn body_with_two_entries_decodes_both_in_order() {
    let body = "{\"errors\":[{\"context\":null,\"message\":\"first\",\"exceptionName\":null},{\"context\":null,\"message\":\"second\",\"exceptionName\":null}]}";
    let decoded = decode_errors(body).unwrap();
    assert_eq!(decoded.errors.len(), 2);
    assert_eq!(decoded.errors[0].message, "first");
    assert_eq!(decoded.errors[1].message, "second");
}

#[test]
fn empty_error_list_decodes() {
    let decoded = decode_errors("{\"errors\":[]}");
    assert_eq!(decoded, Some(BitbucketErrors { errors: vec![] }));
}

#[test]
fn bodies_of_other_shapes_are_refused() {
    assert_eq!(decode_errors(""), None);
    assert_eq!(decode_errors("{}"), None);
    assert_eq!(decode_errors("{\"values\":[]}"), None);
    assert_eq!(decode_errors("{\"errors\":[]"), None);
    assert_eq!(decode_errors("{\"errors\":[]}garbage"), None);
    assert_eq!(
        decode_errors("{\"errors\":[{\"context\":null,\"message\":\"x\"}]}"),
        None
    );
    assert_eq!(
        decode_errors("{\"errors\":[{\"context\":null,\"message\":\"a\\\"b\",\"exceptionName\":null}]}"),
        None
    );
}

#[test]
fn message_string_numbers_every_entry() {
    let errors = BitbucketErrors {
        errors: vec![
            BitbucketError {
                context: None,
                message: "first failure".to_string(),
                exception_name: None,
            },
            BitbucketError {
                context: None,
                message: "second failure".to_string(),
                exception_name: None,
            },
        ],
    };
    assert_eq!(
        errors.to_message_string(),
        "The following errors where encountered:\n    1. first failure\n    2. second failure\n"
    );
}

#[test]
fn api_result_separates_value_and_errors() {
    let ok: ApiResult<u32> = ApiResult::Value(7);
    assert_eq!(ok.to_result().unwrap(), 7);

    let failure: ApiResult<u32> = ApiResult::Errors(BitbucketErrors {
        errors: vec![BitbucketError {
            context: None,
            message: "denied".to_string(),
            exception_name: None,
        }],
    });
    let err = failure.to_result().unwrap_err();
    assert_eq!(err.errors[0].message, "denied");
}
