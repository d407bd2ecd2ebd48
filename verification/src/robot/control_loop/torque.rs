//! Turning torques into a command.
use crate::control_types;
use crate::control_types::Torques;
use crate::double::Double;
use crate::error;
use crate::error::{ErrorView, FrankaError};
use crate::robot::control_loop::{ConvertContext, Derivatives, Shaping};
use crate::robot_state::RobotState;
use crate::wire::codec::ControllerCommand;
use crate::double;
use vstd::prelude::*;

verus! {

/// What is to be filtered and rate limited of torques.
pub open spec fn torque_shaping(torques: Torques, context: ConvertContext, state: RobotState) -> Shaping<
    [Double; 7],
> {
    Shaping {
        values: torques.tau_J,
        reference: state.tau_J_d,
        derivatives: Derivatives::Torques,
        elbow: None,
        filter: context.filters(),
        cutoff_frequency: context.cutoff_frequency,
        limit: context.limit_rate,
        rate: context.rate,
    }
}

/// What is to be filtered and rate limited of torques.
pub fn plan_torques(torques: &Torques, context: &ConvertContext, state: &RobotState) -> (r: Shaping<
    [Double; 7],
>)
    ensures
        r == torque_shaping(*torques, *context, *state),
{
    Shaping {
        values: torques.tau_J,
        reference: state.tau_J_d,
        derivatives: Derivatives::Torques,
        elbow: None,
        filter: context.filtering(),
        cutoff_frequency: context.cutoff_frequency,
        limit: context.limit_rate,
        rate: context.rate,
    }
}

/// The command after shaping, or what is wrong with it.
pub open spec fn torques_written(
    shaped: Result<[Double; 7], FrankaError>,
    command: ControllerCommand,
) -> (ControllerCommand, Result<(), ErrorView>) {
    match shaped {
        Err(e) => (command, Err(e@)),
        Ok(tau_J) => match control_types::finite_fault(tau_J@) {
            Some(e) => (command, Err(e)),
            None => (ControllerCommand { tau_J_d: tau_J, ..command }, Ok(())),
        },
    }
}

/// Checks what came of shaping torques and writes it into the command.
pub fn convert_torques(
    shaped: Result<[Double; 7], FrankaError>,
    command: &mut ControllerCommand,
) -> (r: Result<(), FrankaError>)
    ensures
        (*final(command), error::seen(r)) == torques_written(shaped, *old(command)),
{
    let tau_J = match shaped {
        Ok(tau_J) => tau_J,
        Err(e) => {
            return Err(e);
        },
    };
    match Torques::new(tau_J).validate() {
        Ok(()) => {},
        Err(e) => {
            return Err(e);
        },
    }
    command.tau_J_d = tau_J;
    Ok(())
}

/// What is shaped of torques is what was commanded, held against the torques that the robot last
/// commanded, with the filter, cut-off and limits that the loop was given.
pub proof fn law_commanded_torques_are_shaped(
    torques: Torques,
    context: ConvertContext,
    state: RobotState,
)
    ensures
        ({
            let shaping = torque_shaping(torques, context, state);
            &&& shaping.values == torques.tau_J
            &&& shaping.reference == state.tau_J_d
            &&& shaping.derivatives is Torques
            &&& shaping.elbow is None
            &&& shaping.filter == double::above(
                Double { bits: 0x408f_4000_0000_0000 },
                context.cutoff_frequency,
            )
            &&& shaping.limit == context.limit_rate
            &&& shaping.cutoff_frequency == context.cutoff_frequency
            &&& shaping.rate == context.rate
        }),
{
    broadcast use double::group_order;

}

/// Shaped torques are written exactly when they could be had and are all finite. They are what
/// stands in the command then, and whether it is the last one does not change; a command that is
/// refused does not change at all.
pub proof fn law_torques_are_written(
    shaped: Result<[Double; 7], FrankaError>,
    command: ControllerCommand,
)
    ensures
        ({
            let (after, r) = torques_written(shaped, command);
            &&& r is Ok <==> shaped is Ok && control_types::all_finite(shaped->Ok_0@)
            &&& r is Ok ==> after.tau_J_d == shaped->Ok_0
            &&& r is Err ==> after == command
            &&& after.torque_command_finished == command.torque_command_finished
            &&& shaped matches Err(e) ==> r == Err::<(), ErrorView>(e@)
        }),
{
}

} // verus!
