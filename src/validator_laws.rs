use vstd::prelude::*;
use crate::memory_validator::{
    config_step, process_error, processed_validation, registers, rewarded_validator, submits,
    validator_step, ErrorCode, Validation, Validator, ValidatorConfig,
};
use crate::addressing::{lemma_validation_seeds_unique, validation_seeds_spec};
use crate::pubkey::Pubkey;

verus! {

/// Starting from a fresh configuration, after any number of successful
/// registrations the validator count equals that number.
pub proof fn lemma_count_equals_registrations(trace: Seq<ValidatorConfig>)
    requires
        trace.len() >= 1,
        trace[0].validator_count == 0,
        forall|i: int| 0 <= i < trace.len() - 1 ==> registers(trace[i], #[trigger] trace[i + 1]),
    ensures
        forall|i: int| 0 <= i < trace.len() ==> #[trigger] trace[i].validator_count == i,
    decreases trace.len(),
{
    if trace.len() > 1 {
        let prefix = trace.drop_last();
        assert forall|i: int| 0 <= i < prefix.len() - 1 implies registers(
            prefix[i],
            #[trigger] prefix[i + 1],
        ) by {
            assert(registers(trace[i], trace[i + 1]));
        }
        lemma_count_equals_registrations(prefix);
        assert forall|i: int| 0 <= i < trace.len() implies #[trigger] trace[i].validator_count
            == i by {
            if i < trace.len() - 1 {
                assert(prefix[i] == trace[i]);
            } else {
                let k = i - 1;
                assert(prefix[k] == trace[k]);
                assert(registers(trace[k], trace[k + 1]));
            }
        }
    }
}

/// Over any history of successful operations, the validator count never decreases.
pub proof fn lemma_count_never_decreases(trace: Seq<ValidatorConfig>)
    requires
        forall|i: int| 0 <= i < trace.len() - 1 ==> config_step(trace[i], #[trigger] trace[i + 1]),
    ensures
        forall|i: int, j: int|
            0 <= i <= j < trace.len() ==> #[trigger] trace[i].validator_count <= #[trigger] trace[j].validator_count,
    decreases trace.len(),
{
    if trace.len() > 1 {
        let prefix = trace.drop_last();
        assert forall|i: int| 0 <= i < prefix.len() - 1 implies config_step(
            prefix[i],
            #[trigger] prefix[i + 1],
        ) by {
            assert(config_step(trace[i], trace[i + 1]));
        }
        lemma_count_never_decreases(prefix);
        let last = trace.len() - 1;
        let k = last - 1;
        assert(config_step(trace[k], trace[k + 1]));
        assert forall|i: int, j: int| 0 <= i <= j < trace.len() implies #[trigger] trace[i].validator_count
            <= #[trigger] trace[j].validator_count by {
            if j < last {
                assert(prefix[i] == trace[i] && prefix[j] == trace[j]);
            } else if i < last {
                assert(prefix[i] == trace[i] && prefix[last - 1] == trace[last - 1]);
                assert(prefix[i].validator_count <= prefix[last - 1].validator_count);
            }
        }
    }
}

/// The sequence numbers that a run of successful submissions uses (each the
/// counter's value before its submission) are consecutive: the i-th one is the
/// first plus i, with no gap and no repeat.
pub proof fn lemma_sequence_numbers_dense(trace: Seq<Validator>)
    requires
        trace.len() >= 1,
        forall|i: int| 0 <= i < trace.len() - 1 ==> submits(trace[i], #[trigger] trace[i + 1]),
    ensures
        forall|i: int|
            0 <= i < trace.len() ==> #[trigger] trace[i].validations_performed
                == trace[0].validations_performed + i,
    decreases trace.len(),
{
    if trace.len() > 1 {
        let prefix = trace.drop_last();
        assert forall|i: int| 0 <= i < prefix.len() - 1 implies submits(
            prefix[i],
            #[trigger] prefix[i + 1],
        ) by {
            assert(submits(trace[i], trace[i + 1]));
        }
        lemma_sequence_numbers_dense(prefix);
        assert forall|i: int| 0 <= i < trace.len() implies #[trigger] trace[i].validations_performed
            == trace[0].validations_performed + i by {
            assert(prefix[0] == trace[0]);
            if i < trace.len() - 1 {
                assert(prefix[i] == trace[i]);
            } else {
                let k = i - 1;
                assert(prefix[k] == trace[k]);
                assert(submits(trace[k], trace[k + 1]));
            }
        }
    }
}

/// Over any history of successful operations on one validator record, the
/// counter never decreases, so a sequence number used by a submission is below
/// every sequence number used by a later one.
pub proof fn lemma_sequence_numbers_never_repeat(trace: Seq<Validator>)
    requires
        forall|i: int| 0 <= i < trace.len() - 1 ==> validator_step(trace[i], #[trigger] trace[i + 1]),
    ensures
        forall|i: int, j: int|
            0 <= i <= j < trace.len() ==> #[trigger] trace[i].validations_performed
                <= #[trigger] trace[j].validations_performed,
        forall|i: int, j: int|
            0 <= i < j < trace.len() - 1 && submits(trace[i], trace[i + 1]) ==> #[trigger] trace[i].validations_performed
                < #[trigger] trace[j].validations_performed,
    decreases trace.len(),
{
    if trace.len() > 1 {
        let prefix = trace.drop_last();
        assert forall|i: int| 0 <= i < prefix.len() - 1 implies validator_step(
            prefix[i],
            #[trigger] prefix[i + 1],
        ) by {
            assert(validator_step(trace[i], trace[i + 1]));
        }
        lemma_sequence_numbers_never_repeat(prefix);
        let last = trace.len() - 1;
        let k = last - 1;
        assert(validator_step(trace[k], trace[k + 1]));
        assert forall|i: int, j: int| 0 <= i <= j < trace.len() implies #[trigger] trace[i].validations_performed
            <= #[trigger] trace[j].validations_performed by {
            if j < last {
                assert(prefix[i] == trace[i] && prefix[j] == trace[j]);
            } else if i < last {
                assert(prefix[i] == trace[i] && prefix[last - 1] == trace[last - 1]);
                assert(prefix[i].validations_performed <= prefix[last - 1].validations_performed);
            }
        }
        assert forall|i: int, j: int|
            0 <= i < j < trace.len() - 1 && submits(
                trace[i],
                trace[i + 1],
            ) implies #[trigger] trace[i].validations_performed < #[trigger] trace[j].validations_performed by {
            assert(prefix[i] == trace[i] && prefix[i + 1] == trace[i + 1] && prefix[j] == trace[j]);
            assert(prefix[i + 1].validations_performed <= prefix[j].validations_performed);
        }
    }
}

/// In any history of successful operations on one validator record, the
/// validations that its submissions create are addressed by pairwise distinct
/// seeds: no two of them collide.
pub proof fn lemma_submissions_never_collide(trace: Seq<Validator>, validator_address: Seq<u8>)
    requires
        forall|i: int| 0 <= i < trace.len() - 1 ==> validator_step(trace[i], #[trigger] trace[i + 1]),
    ensures
        forall|i: int, j: int|
            0 <= i < j < trace.len() - 1 && submits(trace[i], trace[i + 1]) ==> validation_seeds_spec(
                validator_address,
                #[trigger] trace[i].validations_performed,
            ) != validation_seeds_spec(validator_address, #[trigger] trace[j].validations_performed),
{
    lemma_sequence_numbers_never_repeat(trace);
    assert forall|i: int, j: int|
        0 <= i < j < trace.len() - 1 && submits(trace[i], trace[i + 1]) implies validation_seeds_spec(
        validator_address,
        #[trigger] trace[i].validations_performed,
    ) != validation_seeds_spec(validator_address, #[trigger] trace[j].validations_performed) by {
        lemma_validation_seeds_unique(
            validator_address,
            trace[i].validations_performed,
            validator_address,
            trace[j].validations_performed,
        );
    }
}

/// Settling the same validation twice pays once: after a first settlement
/// succeeds, a second one on the resulting records fails with
/// `AlreadyProcessed`, and the rewards hold exactly one more reward than before.
pub proof fn lemma_process_twice_pays_once(
    config: ValidatorConfig,
    config_address: Pubkey,
    validator: Validator,
    validator_address: Pubkey,
    validation: Validation,
    signer: Pubkey,
)
    requires
        process_error(config, config_address, validator, validator_address, validation, signer)
            is None,
    ensures
        process_error(
            config,
            config_address,
            rewarded_validator(validator, config.reward_per_validation),
            validator_address,
            processed_validation(validation),
            signer,
        ) == Some(ErrorCode::AlreadyProcessed),
        rewarded_validator(validator, config.reward_per_validation).rewards_earned
            == validator.rewards_earned + config.reward_per_validation,
{
}

} // verus!
