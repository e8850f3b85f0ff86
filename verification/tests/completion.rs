use subscriptions::{
    Completion, ProductsReply, PurchaseReply, RestoreReply, StatusReply,
};

#[test]
fn new_completion_waits() {
    let completion: Completion<u32> = Completion::new();
    assert!(!completion.is_resolved());
    assert_eq!(completion.finish(), None);
}

#[test]
fn completion_takes_the_first_answer() {
    let mut completion = Completion::new();
    assert!(completion.resolve("first".to_string()));
    assert!(completion.is_resolved());
    assert_eq!(completion.finish(), Some("first".to_string()));
}

#[test]
fn completion_rejects_a_second_answer() {
    let mut completion = Completion::new();
    assert!(completion.resolve(1));
    assert!(!completion.resolve(2));
    assert!(!completion.resolve(1));
    assert!(completion.is_resolved());
    assert_eq!(completion.finish(), Some(1));
}

#[test]
fn awaited_reply_is_the_answer_of_the_callback() {
    let mut products = Completion::new();
    products.resolve(ProductsReply::Failed("offline".to_string()));
    products.resolve(ProductsReply::Listed(vec![]));
    assert_eq!(ProductsReply::awaited(products), ProductsReply::Failed("offline".to_string()));

    let mut purchase = Completion::new();
    purchase.resolve(PurchaseReply::Cancelled);
    assert_eq!(PurchaseReply::awaited(purchase), PurchaseReply::Cancelled);

    let mut history = Completion::new();
    history.resolve(RestoreReply::History(vec![]));
    assert_eq!(RestoreReply::awaited(history), RestoreReply::History(vec![]));

    let mut status = Completion::new();
    status.resolve(StatusReply::NeverPurchased);
    assert_eq!(StatusReply::awaited(status), StatusReply::NeverPurchased);
}

#[test]
fn awaited_reply_of_a_silent_callback_is_unanswered() {
    assert_eq!(ProductsReply::awaited(Completion::new()), ProductsReply::Unanswered);
    assert_eq!(PurchaseReply::awaited(Completion::new()), PurchaseReply::Unanswered);
    assert_eq!(RestoreReply::awaited(Completion::new()), RestoreReply::Unanswered);
    assert_eq!(StatusReply::awaited(Completion::new()), StatusReply::Unanswered);
}
