use crud_api::error::{Problem, StoreError};
use crud_api::response::{
    respond_created, respond_found, respond_listed, respond_rejected, respond_removed, Body,
    Response,
};

fn failure_message(r: &Response<u8>) -> Option<String> {
    match &r.body {
        Body::Failed(StoreError::Backend(m)) => Some(m.clone()),
        _ => None,
    }
}

#[test]
fn store_failures_answer_500_with_detail() {
    let e = || StoreError::Backend("connection refused".to_string());
    let r: Response<u8> = respond_listed(Err(e()));
    assert_eq!(r.status, 500);
    assert_eq!(failure_message(&r).as_deref(), Some("connection refused"));
    let r: Response<u8> = respond_found(Err(e()));
    assert_eq!(r.status, 500);
    let r: Response<u8> = respond_created(Err(e()));
    assert_eq!(r.status, 500);
    let r: Response<u8> = respond_removed(Err(e()));
    assert_eq!(r.status, 500);
    let r: Response<u8> = respond_created(Err(StoreError::IdsExhausted));
    assert_eq!(r.status, 500);
    assert!(matches!(r.body, Body::Failed(StoreError::IdsExhausted)));
}

#[test]
fn outcomes_map_to_statuses() {
    let r = respond_listed(Ok(Vec::<u8>::new()));
    assert_eq!(r.status, 200);
    assert!(matches!(r.body, Body::Records(ref v) if v.is_empty()));
    let r = respond_found(Ok(Some(5u8)));
    assert_eq!(r.status, 200);
    assert!(matches!(r.body, Body::Record(5)));
    let r = respond_found(Ok(None::<u8>));
    assert_eq!(r.status, 404);
    let r = respond_created(Ok(9u8));
    assert_eq!(r.status, 201);
    assert!(matches!(r.body, Body::Record(9)));
    let r: Response<u8> = respond_removed(Ok(true));
    assert_eq!(r.status, 204);
    assert!(matches!(r.body, Body::Empty));
    let r: Response<u8> = respond_removed(Ok(false));
    assert_eq!(r.status, 404);
}

#[test]
fn malformed_body_answers_400() {
    let r: Response<u8> = respond_rejected(Problem::Malformed);
    assert_eq!(r.status, 400);
    assert!(matches!(r.body, Body::Invalid(Problem::Malformed)));
}
