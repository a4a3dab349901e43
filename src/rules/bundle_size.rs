//! Whole-package imports of large libraries.
use vstd::prelude::*;
use super::{rule_compiles, CheckModel, CheckSource, Rule, RuleModel, RuleSource, Severity, LineCheckModel, LineCheckSource};
use crate::pattern::{regex_compiles, PatternError};

verus! {

/// The rule as data: the patterns it uses and the findings it reports.
#[verifier::opaque]
pub open spec fn model() -> RuleModel {
    RuleModel {
        file_pattern: "\\.(tsx?|jsx?)$"@,
        check: CheckModel::Lines {
            exclude: None,
            checks: seq![
                LineCheckModel {
                    pattern: "import\\s+[\\w]+\\s+from\\s+['\"]lodash['\"]"@,
                    path_filter: None,
                    also_requires: None,
                    rule_id: "bundle-size"@,
                    severity: Severity::Medium,
                    message: "Full lodash import increases bundle size. Use 'lodash-es' with tree-shaking or import specific functions: import { map } from 'lodash-es'"@,
                },
                LineCheckModel {
                    pattern: "import\\s+[\\w]+\\s+from\\s+['\"]moment['\"]"@,
                    path_filter: None,
                    also_requires: None,
                    rule_id: "bundle-size"@,
                    severity: Severity::Medium,
                    message: "Full moment import increases bundle size. Use 'date-fns' or 'dayjs' instead (moment is deprecated and large)"@,
                },
                LineCheckModel {
                    pattern: "import\\s+\\*\\s+as\\s+[\\w]+\\s+from\\s+['\"]@mui/icons-material['\"]"@,
                    path_filter: None,
                    also_requires: None,
                    rule_id: "bundle-size"@,
                    severity: Severity::Medium,
                    message: "Full @mui/icons-material import increases bundle size. Import specific icons: import { Home } from '@mui/icons-material'"@,
                },
                LineCheckModel {
                    pattern: "import\\s+\\*\\s+as\\s+[\\w]+\\s+from\\s+['\"]date-fns['\"]"@,
                    path_filter: None,
                    also_requires: None,
                    rule_id: "bundle-size"@,
                    severity: Severity::Medium,
                    message: "Full date-fns import increases bundle size. Import specific functions: import { format } from 'date-fns'"@,
                },
                LineCheckModel {
                    pattern: "import\\s+\\*\\s+as\\s+[\\w]+\\s+from\\s+['\"]rxjs['\"]"@,
                    path_filter: None,
                    also_requires: None,
                    rule_id: "bundle-size"@,
                    severity: Severity::Medium,
                    message: "Full rxjs import increases bundle size. Import specific operators: import { map } from 'rxjs/operators'"@,
                },
            ],
        },
    }
}

/// The rule written down with its pattern sources.
pub fn source() -> (r: RuleSource)
    ensures
        r@ == model(),
{
    reveal(model);
    let mut checks: Vec<LineCheckSource> = Vec::new();
    checks.push(
        LineCheckSource {
            pattern: "import\\s+[\\w]+\\s+from\\s+['\"]lodash['\"]",
            path_filter: None,
            also_requires: None,
            rule_id: "bundle-size",
            severity: Severity::Medium,
            message: "Full lodash import increases bundle size. Use 'lodash-es' with tree-shaking or import specific functions: import { map } from 'lodash-es'",
        },
    );
    checks.push(
        LineCheckSource {
            pattern: "import\\s+[\\w]+\\s+from\\s+['\"]moment['\"]",
            path_filter: None,
            also_requires: None,
            rule_id: "bundle-size",
            severity: Severity::Medium,
            message: "Full moment import increases bundle size. Use 'date-fns' or 'dayjs' instead (moment is deprecated and large)",
        },
    );
    checks.push(
        LineCheckSource {
            pattern: "import\\s+\\*\\s+as\\s+[\\w]+\\s+from\\s+['\"]@mui/icons-material['\"]",
            path_filter: None,
            also_requires: None,
            rule_id: "bundle-size",
            severity: Severity::Medium,
            message: "Full @mui/icons-material import increases bundle size. Import specific icons: import { Home } from '@mui/icons-material'",
        },
    );
    checks.push(
        LineCheckSource {
            pattern: "import\\s+\\*\\s+as\\s+[\\w]+\\s+from\\s+['\"]date-fns['\"]",
            path_filter: None,
            also_requires: None,
            rule_id: "bundle-size",
            severity: Severity::Medium,
            message: "Full date-fns import increases bundle size. Import specific functions: import { format } from 'date-fns'",
        },
    );
    checks.push(
        LineCheckSource {
            pattern: "import\\s+\\*\\s+as\\s+[\\w]+\\s+from\\s+['\"]rxjs['\"]",
            path_filter: None,
            also_requires: None,
            rule_id: "bundle-size",
            severity: Severity::Medium,
            message: "Full rxjs import increases bundle size. Import specific operators: import { map } from 'rxjs/operators'",
        },
    );
    let r = RuleSource {
        file_pattern: "\\.(tsx?|jsx?)$",
        check: CheckSource::Lines { exclude: None, checks },
    };
    assert(r@.check->Lines_checks =~= model().check->Lines_checks);
    r
}

/// The compiled rule; fails exactly when `regex` refuses one of its patterns.
pub fn rule() -> (r: Result<Rule, PatternError>)
    ensures
        r is Ok <==> rule_compiles(model()),
        r matches Ok(x) ==> x@ == model(),
        r matches Err(e) ==> !regex_compiles(e.pattern@),
{
    Rule::compile(&source())
}

} // verus!
