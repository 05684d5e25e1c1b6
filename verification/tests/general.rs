use astreinte::models::{ChangePasswordPayload, CreateUserPayload};
use astreinte::password::check_password;
use astreinte::reply::Lookup;
use astreinte::routes::{
    account_hash_outcome, account_inserted_reply, decide_summary_login, hash_account_password,
    new_account, new_preference, plan_profile_password_change, preference_inserted_reply,
    preference_status_reply, preferences_listing, profile_change_reply, status_label,
    CreateRequestPayload, LoginRecord, ProfileRecord,
};

fn record(hash: &str, flag: i64) -> LoginRecord {
    LoginRecord {
        user_id: 3,
        name: "Zoé".to_string(),
        role: "admin".to_string(),
        password_hash: hash.to_string(),
        must_change_password: flag,
    }
}

#[test]
fn status_labels() {
    assert_eq!(status_label(1), "REQUIRES_PASSWORD_CHANGE");
    assert_eq!(status_label(0), "OK");
    assert_eq!(status_label(2), "OK");
}

#[test]
fn summary_login_outcomes() {
    let h = bcrypt::hash("pw", 4).unwrap();
    let s = decide_summary_login(Lookup::Found(record(&h, 1)), "pw").unwrap();
    assert_eq!((s.status.as_str(), s.name.as_str(), s.role.as_str()), ("REQUIRES_PASSWORD_CHANGE", "Zoé", "admin"));
    let s = decide_summary_login(Lookup::Found(record(&h, 0)), "pw").unwrap();
    assert_eq!(s.status, "OK");
    let e = decide_summary_login(Lookup::Found(record(&h, 0)), "nope").unwrap_err();
    assert_eq!((e.status, e.message.as_str()), (401, "Mot de passe incorrect"));
    let e = decide_summary_login(Lookup::Missing, "pw").unwrap_err();
    assert_eq!((e.status, e.message.as_str()), (404, "Utilisateur introuvable"));
    let e = decide_summary_login(Lookup::Failed, "pw").unwrap_err();
    assert_eq!((e.status, e.message.as_str()), (500, "Erreur serveur"));
}

#[test]
fn account_creation_by_email() {
    let p = CreateUserPayload {
        name: "Zoé".to_string(),
        email: "zoe@example.org".to_string(),
        role: "admin".to_string(),
        service_id: None,
        password_temp: "tmp".to_string(),
    };
    let h = hash_account_password(&p).unwrap();
    assert!(check_password("tmp", &h));
    let a = new_account(&p, h);
    assert_eq!((a.name.as_str(), a.role.as_str(), a.email.as_str()), ("Zoé", "admin", "zoe@example.org"));
    assert!(a.must_change_password);
    let e = account_hash_outcome(Err(bcrypt::BcryptError::CostNotAllowed(2))).unwrap_err();
    assert_eq!((e.status, e.message.as_str()), (500, "Erreur serveur"));
    let ok = account_inserted_reply(Ok(()));
    assert_eq!((ok.status, ok.message.as_str()), (201, "Utilisateur créé avec succès"));
    let err = account_inserted_reply(Err("disk full".to_string()));
    assert_eq!((err.status, err.message.as_str()), (400, "Erreur DB : disk full"));
}

#[test]
fn profile_password_change() {
    let h = bcrypt::hash("old", 4).unwrap();
    let p = ChangePasswordPayload {
        email: "zoe@example.org".to_string(),
        old_password: "old".to_string(),
        new_password: "new".to_string(),
    };
    let rec = ProfileRecord { name: "Zoé".to_string(), role: "admin".to_string(), password_hash: h };
    let u = plan_profile_password_change(Lookup::Found(rec.clone()), &p).unwrap();
    assert!(check_password("new", &u.password_hash));
    assert!(!u.must_change_password);
    let e = plan_profile_password_change(Lookup::Failed, &p).unwrap_err();
    assert_eq!((e.status, e.message.as_str()), (500, "Erreur de base de données"));
    let e = plan_profile_password_change(Lookup::Missing, &p).unwrap_err();
    assert_eq!((e.status, e.message.as_str()), (404, "Utilisateur introuvable"));
    let profile = profile_change_reply(rec.clone(), true).unwrap();
    assert_eq!((profile.name.as_str(), profile.role.as_str()), ("Zoé", "admin"));
    let e = profile_change_reply(rec, false).unwrap_err();
    assert_eq!((e.status, e.message.as_str()), (500, "Erreur lors de la mise à jour"));
}

#[test]
fn preferences() {
    let p = CreateRequestPayload {
        user_email: "zoe@example.org".to_string(),
        date: "2024-05-01".to_string(),
        shift_type: "nuit".to_string(),
        preference: "dispo".to_string(),
    };
    let n = new_preference(&p);
    assert_eq!(n.user_email, "zoe@example.org");
    assert_eq!(n.date, "2024-05-01");
    assert_eq!(n.shift_type, "nuit");
    assert_eq!(n.preference, "dispo");
    assert_eq!(n.status, "En attente");
    let r = preference_inserted_reply(true);
    assert_eq!((r.status, r.message.as_str()), (201, "Demande enregistrée avec succès"));
    let r = preference_inserted_reply(false);
    assert_eq!((r.status, r.message.as_str()), (500, "Erreur d'écriture en base"));
    let r = preference_status_reply(true);
    assert_eq!((r.status, r.message.as_str()), (200, "Statut mis à jour"));
    let r = preference_status_reply(false);
    assert_eq!((r.status, r.message.as_str()), (500, "Erreur de mise à jour"));
    assert!(preferences_listing(Some(vec![])).unwrap().is_empty());
    let e = preferences_listing(None).unwrap_err();
    assert_eq!((e.status, e.message.as_str()), (500, "Erreur de lecture de la base"));
}
