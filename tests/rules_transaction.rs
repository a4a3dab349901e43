use guardrails::rules::transaction::rule;
use guardrails::rules::Violation;

fn check(content: &str, path: &str) -> Vec<Violation> {
    rule().unwrap().check(content, path)
}

#[test]
fn detects_multiple_writes_without_transaction() {
    let content = r#"
            async function handle() {
                await user.save();
                await order.create();
            }
        "#;
    let violations = check(content, "/src/usecases/handler.ts");
    assert_eq!(violations.len(), 1);
    assert!(violations[0].failure.contains("2 write ops"));
}

#[test]
fn allows_with_transactional_decorator() {
    let content = r#"
            @Transactional()
            async function handle() {
                await user.save();
                await order.create();
            }
        "#;
    let violations = check(content, "/src/usecases/handler.ts");
    assert!(violations.is_empty());
}

#[test]
fn allows_with_unit_of_work() {
    let content = r#"
            async function handle() {
                await unitOfWork.execute(async () => {
                    await user.save();
                    await order.create();
                });
            }
        "#;
    let violations = check(content, "/src/usecases/handler.ts");
    assert!(violations.is_empty());
}

#[test]
fn allows_with_prisma_transaction() {
    let content = r#"
            async function handle() {
                await prisma.$transaction(async (tx) => {
                    await tx.user.create();
                    await tx.order.create();
                });
            }
        "#;
    let violations = check(content, "/src/services/handler.ts");
    assert!(violations.is_empty());
}

#[test]
fn skips_non_target_directories() {
    let content = r#"
            async function handle() {
                await user.save();
                await order.create();
            }
        "#;
    let violations = check(content, "/src/utils/helper.ts");
    assert!(violations.is_empty());
}

#[test]
fn skips_single_write() {
    let content = r#"
            async function handle() {
                await user.save();
            }
        "#;
    let violations = check(content, "/src/usecases/handler.ts");
    assert!(violations.is_empty());
}

#[test]
fn no_false_positive_for_set_add() {
    let content = r#"
            function process() {
                mySet.add(item);
                myMap.set(key, value);
            }
        "#;
    let violations = check(content, "/src/usecases/handler.ts");
    assert!(violations.is_empty());
}

#[test]
fn detects_in_domain_directory() {
    let content = r#"
            async function handle() {
                await entity.save();
                await aggregate.persist();
            }
        "#;
    let violations = check(content, "/src/domain/order/handler.ts");
    assert_eq!(violations.len(), 1);
}

#[test]
fn allows_with_drizzle_transaction() {
    let content = r#"
            async function handle() {
                await db.transaction(async (tx) => {
                    await tx.insert(users).values(user);
                    await tx.insert(orders).values(order);
                });
            }
        "#;
    let violations = check(content, "/src/services/handler.ts");
    assert!(violations.is_empty());
}

#[test]
fn detects_when_transaction_keyword_only_in_variable_name() {
    let content = r#"
            async function handle(transactionId: string) {
                await user.save();
                await order.create();
            }
        "#;
    let violations = check(content, "/src/usecases/handler.ts");
    assert_eq!(violations.len(), 1);
}

#[test]
fn detects_when_transaction_keyword_only_in_comment() {
    let content = r#"
            // TODO: wrap in unitOfWork later
            async function handle() {
                await user.save();
                await order.create();
            }
        "#;
    let violations = check(content, "/src/usecases/handler.ts");
    assert_eq!(violations.len(), 1);
}

#[test]
fn detects_when_unitofwork_only_in_variable_name() {
    let content = r#"
            async function handle(unitOfWorkId: string) {
                await user.save();
                await order.create();
            }
        "#;
    let violations = check(content, "/src/usecases/handler.ts");
    assert_eq!(violations.len(), 1);
}
