use bson::oid::ObjectId;
use neura_api::ids::Timestamp;
use neura_api::models::{Payment, ReportStatus, SystemReport, Tokens, UserReport};

#[test]
fn subscription_runs_thirty_days() {
    let user = ObjectId::new();
    let id = ObjectId::new();
    let p = Payment::new_subscription(id, user, "sub-1".to_string(), 100, Timestamp { millis: 1_000 });
    assert_eq!(p._id, id);
    assert!(p.active);
    assert_eq!(p.subscription_date, Timestamp { millis: 1_000 });
    assert_eq!(p.subscription_end_date, Timestamp { millis: 1_000 + 30 * 86_400_000 });
    assert_eq!(p.credits_purchased, 100);
    assert_eq!(p.userId, user);
    assert!(!p.subscription_cancelled);
    assert_eq!(p.subscription_cancelled_date, None);
}

#[test]
fn issued_token_is_live() {
    let user = ObjectId::new();
    let id = ObjectId::new();
    let t = Tokens::issue(id, user, "abc".to_string(), Timestamp { millis: 7 });
    assert_eq!(t._id, id);
    assert_eq!(t.token, "abc");
    assert!(!t.tomestoned);
    assert_eq!(t.userId, user);
    assert_eq!(t.created_at, Timestamp { millis: 7 });
    assert_eq!(t.updated_at, None);
}

#[test]
fn reports_open_in_progress() {
    let user = ObjectId::new();
    let r = SystemReport::open(ObjectId::new(), "t".to_string(), user, "d".to_string(), Timestamp { millis: 3 });
    assert_eq!(r.status, ReportStatus::InProgress);
    assert_eq!(r.userId, user);
    assert_eq!(r.title, "t");
    let u = UserReport::open(ObjectId::new(), "t2".to_string(), "d2".to_string(), user, Timestamp { millis: 4 });
    assert_eq!(u.status, ReportStatus::InProgress);
    assert_eq!(u.assignedToId, user);
    assert_eq!(u.description, "d2");
}
